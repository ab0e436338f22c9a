//! Launching Bambu Studio.

use vstd::prelude::*;
use crate::scraper::web_search::{first_index, first_occurrence};
use crate::text::{
    chars_of, contains_seq, contains_str, is_whitespace, lead_ws, lemma_lead_ws, split_on, split_on_char,
    starts_with_str, string_of, sub_chars, trim, trim_chars, trim_start, is_ws, starts_with_seq, opt_view,
};

verus! {

broadcast use vstd::string::group_string_axioms;

/// Result from launching Bambu Studio.
#[derive(Debug, Clone)]
pub struct LaunchResult {
    pub launched: bool,
    pub app_path: String,
    pub was_already_running: bool,
}

/// The arguments given to Bambu Studio: the STL file when it exists, then
/// `--load-filaments` and the profile when it exists.
pub open spec fn launch_args_of(stl: Option<Seq<char>>, profile: Option<Seq<char>>) -> Seq<Seq<char>> {
    let a = match stl {
        Some(s) => seq![s],
        None => Seq::empty(),
    };
    match profile {
        Some(p) => a + seq!["--load-filaments"@, p],
        None => a,
    }
}

/// Program and arguments that launch Bambu Studio. `stl` and `profile` are
/// the files that exist among those asked for. On macOS the application is
/// opened with `open -a`, and its own arguments follow `--args`.
pub fn launch_command(mac: bool, bs_path: &str, stl: Option<&str>, profile: Option<&str>) -> (r: (
    String,
    Vec<String>,
))
    ensures
        ({
            let own = launch_args_of(
                match stl {
                    Some(s) => Some(s@),
                    None => None,
                },
                match profile {
                    Some(p) => Some(p@),
                    None => None,
                },
            );
            let args = r.1@.map_values(|s: String| s@);
            if mac {
                &&& r.0@ == "open"@
                &&& args == seq!["-a"@, bs_path@] + (if own.len() > 0 {
                    seq!["--args"@] + own
                } else {
                    own
                })
            } else {
                &&& r.0@ == bs_path@
                &&& args == own
            }
        }),
{
    let mut own: Vec<String> = Vec::new();
    if let Some(s) = stl {
        own.push(s.to_string());
    }
    if let Some(p) = profile {
        own.push("--load-filaments".to_string());
        own.push(p.to_string());
    }
    let ghost own_v = launch_args_of(
        match stl {
            Some(s) => Some(s@),
            None => None,
        },
        match profile {
            Some(p) => Some(p@),
            None => None,
        },
    );
    proof {
        assert(own@.map_values(|s: String| s@) =~= own_v);
    }
    if mac {
        let mut args: Vec<String> = Vec::new();
        args.push("-a".to_string());
        args.push(bs_path.to_string());
        let n = own.len();
        if n > 0 {
            args.push("--args".to_string());
        }
        let ghost prefix = args@.map_values(|s: String| s@);
        let ghost plen = args@.len();
        let mut i: usize = 0;
        while i < n
            invariant
                i <= n == own@.len(),
                plen == prefix.len(),
                args@.len() == plen + i,
                forall|k: int| 0 <= k < plen ==> (#[trigger] args@[k])@ == prefix[k],
                forall|k: int| 0 <= k < i ==> (#[trigger] args@[plen + k])@ == own@[k]@,
            decreases n - i,
        {
            args.push(own[i].clone());
            i = i + 1;
        }
        proof {
            let av = args@.map_values(|s: String| s@);
            let ov = own@.map_values(|s: String| s@);
            assert forall|k: int| 0 <= k < av.len() implies av[k] == (prefix + ov)[k] by {
                if k < plen {
                    assert(args@[k]@ == prefix[k]);
                } else {
                    assert(args@[plen + (k - plen)]@ == own@[k - plen]@);
                }
            }
            assert(av =~= prefix + ov);
            if n > 0 {
                assert(prefix =~= seq!["-a"@, bs_path@] + seq!["--args"@]);
            } else {
                assert(prefix =~= seq!["-a"@, bs_path@]);
            }
        }
        ("open".to_string(), args)
    } else {
        (bs_path.to_string(), own)
    }
}

// ---------------------------------------------------------------------------
// Reading the output of the tools that locate Bambu Studio
// ---------------------------------------------------------------------------

/// A piece without the carriage return that ended it.
pub open spec fn strip_cr(t: Seq<char>) -> Seq<char> {
    if t.len() > 0 && t.last() == '\r' {
        t.drop_last()
    } else {
        t
    }
}

/// The lines of a text (`str::lines`): the pieces between newlines, each
/// that ended with a newline without a carriage return before it, and no
/// empty last piece.
pub open spec fn lines_of(s: Seq<char>) -> Seq<Seq<char>> {
    let parts = split_on(s, '\n');
    let body = parts.drop_last().map_values(|t: Seq<char>| strip_cr(t));
    if parts.last().len() == 0 {
        body
    } else {
        body.push(parts.last())
    }
}

/// The lines of a text (see `lines_of`).
fn text_lines(s: &str) -> (r: Vec<Vec<char>>)
    ensures
        r@.map_values(|w: Vec<char>| w@) == lines_of(s@),
{
    let parts = split_on_char(&chars_of(s), '\n');
    let ghost pv = parts@.map_values(|w: Vec<char>| w@);
    assert(pv.len() > 0);
    let n = parts.len();
    let mut out: Vec<Vec<char>> = Vec::new();
    let mut i: usize = 0;
    while i + 1 < n
        invariant
            n == parts.len(),
            n > 0,
            i + 1 <= n,
            pv == parts@.map_values(|w: Vec<char>| w@),
            out@.map_values(|w: Vec<char>| w@) == pv.drop_last().take(i as int).map_values(|t: Seq<char>| strip_cr(t)),
        decreases n - i,
    {
        let w = &parts[i];
        let piece = if w.len() > 0 && w[w.len() - 1] == '\r' {
            sub_chars(w, 0, w.len() - 1)
        } else {
            crate::text::copy_chars(w)
        };
        let ghost before = out@.map_values(|w: Vec<char>| w@);
        proof {
            assert(piece@ == strip_cr(pv[i as int]));
        }
        out.push(piece);
        proof {
            assert(out@.map_values(|w: Vec<char>| w@) =~= before.push(strip_cr(pv[i as int])));
            assert(pv.drop_last().take(i + 1).map_values(|t: Seq<char>| strip_cr(t)) =~= pv.drop_last().take(
                i as int,
            ).map_values(|t: Seq<char>| strip_cr(t)).push(strip_cr(pv[i as int])));
        }
        i = i + 1;
    }
    assert(pv.drop_last().take(i as int) =~= pv.drop_last());
    if parts[n - 1].len() > 0 {
        let ghost before = out@.map_values(|w: Vec<char>| w@);
        out.push(crate::text::copy_chars(&parts[n - 1]));
        assert(out@.map_values(|w: Vec<char>| w@) =~= before.push(pv.last()));
    }
    out
}

/// A line without its leading whitespace (`str::trim_start`).
fn trim_start_chars(v: &Vec<char>) -> (r: Vec<char>)
    ensures
        r@ == trim_start(v@),
{
    let n = v.len();
    let mut a: usize = 0;
    while a < n && is_whitespace(v[a])
        invariant
            a <= n,
            n == v.len(),
            forall|k: int| 0 <= k < a ==> is_ws(#[trigger] v@[k]),
        decreases n - a,
    {
        a = a + 1;
    }
    proof {
        lemma_lead_ws(v@, a as int);
    }
    sub_chars(v, a, n)
}

/// The text after the first `n` occurrences of `sep`, each searched after
/// the previous one (the last piece of `str::splitn(n + 1, sep)`).
pub open spec fn after_separators(s: Seq<char>, sep: Seq<char>, n: nat) -> Seq<char>
    decreases n,
{
    if n == 0 {
        s
    } else if contains_seq(s, sep) {
        after_separators(s.skip(first_occurrence(s, sep) + sep.len()), sep, (n - 1) as nat)
    } else {
        s
    }
}

/// The column separator of `reg query` output.
pub open spec fn reg_separator() -> Seq<char> {
    seq![' ', ' ', ' ', ' ']
}

/// The install directory a `reg query` line names: on an `InstallLocation`
/// line, its fourth column (what follows the third separator), trimmed,
/// when not empty.
pub open spec fn install_location_of(line: Seq<char>) -> Option<Seq<char>> {
    if starts_with_seq(trim_start(line), "InstallLocation"@) {
        let d = trim(after_separators(line, reg_separator(), 3));
        if d.len() > 0 {
            Some(d)
        } else {
            None
        }
    } else {
        None
    }
}

/// The install directories named by some lines, in order.
pub open spec fn install_locations(lines: Seq<Seq<char>>) -> Seq<Seq<char>>
    decreases lines.len(),
{
    if lines.len() == 0 {
        Seq::empty()
    } else {
        let t = install_locations(lines.drop_last());
        match install_location_of(lines.last()) {
            Some(d) => t.push(d),
            None => t,
        }
    }
}

/// The text after the first `n` separators.
#[verifier::rlimit(60)]
fn after_seps(line: &Vec<char>, n: usize) -> (r: Vec<char>)
    ensures
        r@ == after_separators(line@, reg_separator(), n as nat),
    decreases n,
{
    if n == 0 {
        return crate::text::copy_chars(line);
    }
    let sep: Vec<char> = vec![' ', ' ', ' ', ' '];
    assert(sep@ =~= reg_separator());
    assert(sep@.len() == 4);
    let found = first_index(line, &sep);
    match found {
        Some(i) => {
            assert(i + sep@.len() <= line@.len());
            assert(i + 4 <= line.len());
            let rest = sub_chars(line, i + 4, line.len());
            assert(rest@ =~= line@.skip(first_occurrence(line@, reg_separator()) + 4));
            let r = after_seps(&rest, n - 1);
            assert(after_separators(line@, reg_separator(), n as nat) == after_separators(
                rest@,
                reg_separator(),
                (n - 1) as nat,
            ));
            r
        },
        None => crate::text::copy_chars(line),
    }
}

/// The install directories named in `reg query ... /v InstallLocation`
/// output (see `install_locations`).
#[verifier::spinoff_prover]
#[verifier::rlimit(40)]
pub fn install_location_dirs(output: &str) -> (r: Vec<String>)
    ensures
        r@.map_values(|s: String| s@) == install_locations(lines_of(output@)),
{
    let lines = text_lines(output);
    let ghost lv = lines@.map_values(|w: Vec<char>| w@);
    let mut out: Vec<String> = Vec::new();
    let mut i: usize = 0;
    while i < lines.len()
        invariant
            i <= lines.len(),
            lv == lines@.map_values(|w: Vec<char>| w@),
            out@.map_values(|s: String| s@) == install_locations(lv.take(i as int)),
        decreases lines.len() - i,
    {
        proof {
            assert(lv.take(i + 1).drop_last() == lv.take(i as int));
            assert(lv.take(i + 1).last() == lines@[i as int]@);
        }
        let line = &lines[i];
        if starts_with_str(&trim_start_chars(line), "InstallLocation") {
            let d = trim_chars(&after_seps(line, 3));
            if d.len() > 0 {
                let ghost before = out@.map_values(|s: String| s@);
                out.push(string_of(&d));
                assert(out@.map_values(|s: String| s@) == before.push(d@));
            }
        }
        i = i + 1;
    }
    assert(lv.take(lines.len() as int) == lv);
    out
}

/// The nearest line before line `i` that, trimmed, starts with `HKEY_`
/// (a registry key in `reg query` output), trimmed.
pub open spec fn key_line_before(lines: Seq<Seq<char>>, i: int) -> Option<Seq<char>>
    decreases i,
{
    if i <= 0 {
        None
    } else if starts_with_seq(trim(lines[i - 1]), "HKEY_"@) {
        Some(trim(lines[i - 1]))
    } else {
        key_line_before(lines, i - 1)
    }
}

/// Whether a `reg query` line is the display name of a Bambu Studio entry.
pub open spec fn names_bambu_studio(line: Seq<char>) -> bool {
    contains_seq(trim(line), "DisplayName"@) && contains_seq(trim(line), "Bambu Studio"@)
}

/// The keys of the first `n` lines' Bambu Studio entries: for each display
/// name line, the key line before it, in order.
pub open spec fn bambu_keys(lines: Seq<Seq<char>>, n: int) -> Seq<Seq<char>>
    decreases n,
{
    if n <= 0 {
        Seq::empty()
    } else {
        let t = bambu_keys(lines, n - 1);
        if names_bambu_studio(lines[n - 1]) {
            match key_line_before(lines, n - 1) {
                Some(k) => t.push(k),
                None => t,
            }
        } else {
            t
        }
    }
}

/// The key line before line `i`, if any.
fn key_before(lines: &Vec<Vec<char>>, i: usize) -> (r: Option<Vec<char>>)
    requires
        i <= lines.len(),
    ensures
        match r {
            Some(k) => key_line_before(lines@.map_values(|w: Vec<char>| w@), i as int) == Some(k@),
            None => key_line_before(lines@.map_values(|w: Vec<char>| w@), i as int) is None,
        },
{
    let ghost lv = lines@.map_values(|w: Vec<char>| w@);
    let mut j: usize = i;
    while j > 0
        invariant
            j <= i <= lines.len(),
            lv == lines@.map_values(|w: Vec<char>| w@),
            key_line_before(lv, i as int) == key_line_before(lv, j as int),
        decreases j,
    {
        let t = trim_chars(&lines[j - 1]);
        if starts_with_str(&t, "HKEY_") {
            return Some(t);
        }
        j = j - 1;
    }
    None
}

/// The registry keys of the Bambu Studio entries in the output of a
/// `reg query ... /s /v DisplayName` (see `bambu_keys`).
pub fn bambu_uninstall_keys(output: &str) -> (r: Vec<String>)
    ensures
        r@.map_values(|s: String| s@) == bambu_keys(lines_of(output@), lines_of(output@).len() as int),
{
    let lines = text_lines(output);
    let ghost lv = lines@.map_values(|w: Vec<char>| w@);
    let mut out: Vec<String> = Vec::new();
    let mut i: usize = 0;
    while i < lines.len()
        invariant
            i <= lines.len(),
            lv == lines@.map_values(|w: Vec<char>| w@),
            out@.map_values(|s: String| s@) == bambu_keys(lv, i as int),
        decreases lines.len() - i,
    {
        let t = trim_chars(&lines[i]);
        if contains_str(&t, "DisplayName") && contains_str(&t, "Bambu Studio") {
            match key_before(&lines, i) {
                Some(k) => {
                    let ghost before = out@.map_values(|s: String| s@);
                    out.push(string_of(&k));
                    assert(out@.map_values(|s: String| s@) == before.push(k@));
                },
                None => {},
            }
        }
        i = i + 1;
    }
    out
}

/// The first line of a tool's output, trimmed, when not empty.
pub open spec fn first_line_of(s: Seq<char>) -> Option<Seq<char>> {
    let ls = lines_of(s);
    if ls.len() > 0 && trim(ls[0]).len() > 0 {
        Some(trim(ls[0]))
    } else {
        None
    }
}

/// The path a locating tool (`which`, `where`, `mdfind`) printed first
/// (see `first_line_of`).
pub fn first_output_line(output: &str) -> (r: Option<String>)
    ensures
        opt_view(r) == first_line_of(output@),
{
    let lines = text_lines(output);
    if lines.len() > 0 {
        let t = trim_chars(&lines[0]);
        if t.len() > 0 {
            return Some(string_of(&t));
        }
    }
    None
}

} // verus!
