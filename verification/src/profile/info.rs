//! The `.info` file that Bambu Studio keeps beside a user profile: one
//! `key = value` line for each of the profile's metadata fields.

use vstd::prelude::*;
use crate::commands::profile::ProfileMetadataInfo;
use crate::fixed::{digits_value, parse_unsigned, unsigned_digits};
use crate::text::{
    chars_of, decimal, decimal_chars, eq_str, is_ws, lead_ws, lemma_lead_ws, lemma_lead_ws_bound,
    lemma_trail_ws, lemma_trail_ws_bound, push_all, push_str, sep_split_state, split_on,
    split_on_char, string_of, sub_chars, trail_ws, trim, trim_chars, trim_start,
};

verus! {

broadcast use vstd::string::group_string_axioms;

/// Position of the first `=` in `line` at or after `i` (the line's length
/// when there is none).
pub open spec fn eq_from(line: Seq<char>, i: int) -> int
    decreases line.len() - i,
{
    if i < 0 || i >= line.len() {
        line.len() as int
    } else if line[i] == '=' {
        i
    } else {
        eq_from(line, i + 1)
    }
}

/// A `key = value` line as its key and value, each trimmed, split at the
/// first `=`; a line without `=` holds no field.
pub open spec fn line_pair(line: Seq<char>) -> Option<(Seq<char>, Seq<char>)> {
    let p = eq_from(line, 0);
    if p < line.len() {
        Some((trim(line.take(p)), trim(line.skip(p + 1))))
    } else {
        None
    }
}

/// The value that the last line for `key` gives it.
pub open spec fn last_value(lines: Seq<Seq<char>>, key: Seq<char>) -> Option<Seq<char>>
    decreases lines.len(),
{
    if lines.len() == 0 {
        None
    } else {
        match line_pair(lines.last()) {
            Some(kv) => if kv.0 == key {
                Some(kv.1)
            } else {
                last_value(lines.drop_last(), key)
            },
            None => last_value(lines.drop_last(), key),
        }
    }
}

/// The value an `.info` text gives `key`.
pub open spec fn info_value(text: Seq<char>, key: Seq<char>) -> Option<Seq<char>> {
    last_value(split_on(text, '\n'), key)
}

/// A text value, empty when absent.
pub open spec fn or_empty(o: Option<Seq<char>>) -> Seq<char> {
    match o {
        Some(v) => v,
        None => Seq::empty(),
    }
}

/// A time stamp value: the unsigned integer it holds, 0 when it holds
/// none that fits in 64 bits.
pub open spec fn stamp_value(o: Option<Seq<char>>) -> u64 {
    match o {
        Some(v) => match unsigned_digits(v) {
            Some(d) => if digits_value(d) <= u64::MAX {
                digits_value(d) as u64
            } else {
                0
            },
            None => 0,
        },
        None => 0,
    }
}

/// The fields of a metadata record.
pub open spec fn meta_view(m: ProfileMetadataInfo) -> (Seq<char>, Seq<char>, Seq<char>, Seq<char>, u64) {
    (m.sync_info@, m.user_id@, m.setting_id@, m.base_id@, m.updated_time)
}

/// The fields an `.info` text gives: each from the last line for it,
/// missing ones empty (and the time 0).
pub open spec fn parsed_info(text: Seq<char>) -> (Seq<char>, Seq<char>, Seq<char>, Seq<char>, u64) {
    (
        or_empty(info_value(text, "sync_info"@)),
        or_empty(info_value(text, "user_id"@)),
        or_empty(info_value(text, "setting_id"@)),
        or_empty(info_value(text, "base_id"@)),
        stamp_value(info_value(text, "updated_time"@)),
    )
}

/// The `.info` text of a metadata record, one line per field.
pub open spec fn info_text(m: ProfileMetadataInfo) -> Seq<char> {
    "sync_info = "@ + m.sync_info@ + "\nuser_id = "@ + m.user_id@ + "\nsetting_id = "@ + m.setting_id@
        + "\nbase_id = "@ + m.base_id@ + "\nupdated_time = "@ + decimal(m.updated_time as nat) + "\n"@
}

fn line_pair_exec(line: &Vec<char>) -> (r: Option<(Vec<char>, Vec<char>)>)
    ensures
        match r {
            Some(kv) => line_pair(line@) == Some((kv.0@, kv.1@)),
            None => line_pair(line@) is None,
        },
{
    let mut i: usize = 0;
    while i < line.len() && line[i] != '='
        invariant
            i <= line.len(),
            eq_from(line@, 0) == eq_from(line@, i as int),
        decreases line.len() - i,
    {
        i = i + 1;
    }
    if i < line.len() {
        let k = trim_chars(&sub_chars(line, 0, i));
        let v = trim_chars(&sub_chars(line, i + 1, line.len()));
        proof {
            assert(line@.subrange(0, i as int) =~= line@.take(i as int));
            assert(line@.subrange(i + 1, line@.len() as int) =~= line@.skip(i + 1));
        }
        Some((k, v))
    } else {
        None
    }
}

fn find_value(lines: &Vec<Vec<char>>, key: &str) -> (r: Option<Vec<char>>)
    ensures
        match r {
            Some(v) => last_value(lines@.map_values(|l: Vec<char>| l@), key@) == Some(v@),
            None => last_value(lines@.map_values(|l: Vec<char>| l@), key@) is None,
        },
{
    let ghost ls = lines@.map_values(|l: Vec<char>| l@);
    let mut i: usize = lines.len();
    proof {
        assert(ls.take(i as int) =~= ls);
    }
    while i > 0
        invariant
            i <= lines.len(),
            ls == lines@.map_values(|l: Vec<char>| l@),
            last_value(ls, key@) == last_value(ls.take(i as int), key@),
        decreases i,
    {
        i = i - 1;
        proof {
            assert(ls.take(i + 1).drop_last() =~= ls.take(i as int));
            assert(ls.take(i + 1).last() == lines@[i as int]@);
        }
        match line_pair_exec(&lines[i]) {
            Some(kv) => {
                if eq_str(&kv.0, key) {
                    return Some(kv.1);
                }
            },
            None => {},
        }
    }
    proof {
        assert(ls.take(0) =~= Seq::<Seq<char>>::empty());
    }
    None
}

fn text_value(v: Option<Vec<char>>) -> (r: String)
    ensures
        r@ == or_empty(match v {
            Some(t) => Some(t@),
            None => None,
        }),
{
    match v {
        Some(t) => string_of(&t),
        None => String::new(),
    }
}

/// Reads an `.info` text (see `parsed_info`).
pub fn parse_profile_info(text: &str) -> (m: ProfileMetadataInfo)
    ensures
        meta_view(m) == parsed_info(text@),
{
    let lines = split_on_char(&chars_of(text), '\n');
    let sync_info = text_value(find_value(&lines, "sync_info"));
    let user_id = text_value(find_value(&lines, "user_id"));
    let setting_id = text_value(find_value(&lines, "setting_id"));
    let base_id = text_value(find_value(&lines, "base_id"));
    let updated_time = match find_value(&lines, "updated_time") {
        Some(v) => match parse_unsigned(&v, u64::MAX) {
            Some(n) => n,
            None => 0,
        },
        None => 0,
    };
    ProfileMetadataInfo { sync_info, user_id, setting_id, base_id, updated_time }
}

/// Writes the `.info` text of a metadata record (see `info_text`).
pub fn to_info_string(m: &ProfileMetadataInfo) -> (r: String)
    ensures
        r@ == info_text(*m),
{
    let mut out: Vec<char> = Vec::new();
    push_str(&mut out, "sync_info = ");
    push_str(&mut out, m.sync_info.as_str());
    push_str(&mut out, "\nuser_id = ");
    push_str(&mut out, m.user_id.as_str());
    push_str(&mut out, "\nsetting_id = ");
    push_str(&mut out, m.setting_id.as_str());
    push_str(&mut out, "\nbase_id = ");
    push_str(&mut out, m.base_id.as_str());
    push_str(&mut out, "\nupdated_time = ");
    push_all(&mut out, &decimal_chars(m.updated_time));
    push_str(&mut out, "\n");
    proof {
        assert(out@ =~= info_text(*m));
    }
    string_of(&out)
}

// ---------------------------------------------------------------------------
// Reading back what was written
// ---------------------------------------------------------------------------

proof fn lemma_state_prefix(s: Seq<char>, x: Seq<char>, n: int)
    requires
        0 <= n <= x.len() <= s.len(),
        s.take(x.len() as int) == x,
        !x.contains('\n'),
    ensures
        sep_split_state(s, '\n', n) == (Seq::<Seq<char>>::empty(), x.take(n)),
    decreases n,
{
    if n > 0 {
        lemma_state_prefix(s, x, n - 1);
        assert(s[n - 1] == s.take(x.len() as int)[n - 1]);
        if x[n - 1] == '\n' {
            assert(x.contains('\n'));
        }
        assert(x.take(n) =~= x.take(n - 1).push(x[n - 1]));
    } else {
        assert(x.take(0) =~= Seq::<char>::empty());
    }
}

proof fn lemma_state_after(x: Seq<char>, y: Seq<char>, k: int)
    requires
        0 <= k <= y.len(),
        !x.contains('\n'),
    ensures
        sep_split_state(x + seq!['\n'] + y, '\n', x.len() + 1 + k) == (
            seq![x] + sep_split_state(y, '\n', k).0,
            sep_split_state(y, '\n', k).1,
        ),
    decreases k,
{
    let s = x + seq!['\n'] + y;
    if k == 0 {
        assert(s.take(x.len() as int) =~= x);
        lemma_state_prefix(s, x, x.len() as int);
        assert(x.take(x.len() as int) =~= x);
        assert(s[x.len() as int] == '\n');
        assert(Seq::<Seq<char>>::empty().push(x) =~= seq![x] + Seq::<Seq<char>>::empty());
    } else {
        lemma_state_after(x, y, k - 1);
        assert(s[x.len() + 1 + k - 1] == y[k - 1]);
        let st = sep_split_state(y, '\n', k - 1);
        assert((seq![x] + st.0).push(st.1) =~= seq![x] + st.0.push(st.1));
    }
}

/// Splitting at a first line break.
proof fn lemma_split_first(x: Seq<char>, y: Seq<char>)
    requires
        !x.contains('\n'),
    ensures
        split_on(x + seq!['\n'] + y, '\n') == seq![x] + split_on(y, '\n'),
{
    lemma_state_after(x, y, y.len() as int);
    let st = sep_split_state(y, '\n', y.len() as int);
    assert((x + seq!['\n'] + y).len() == x.len() + 1 + y.len());
    assert((seq![x] + st.0).push(st.1) =~= seq![x] + st.0.push(st.1));
}

proof fn lemma_no_char_concat(a: Seq<char>, b: Seq<char>, c: char)
    requires
        !a.contains(c),
        !b.contains(c),
    ensures
        !(a + b).contains(c),
{
    if (a + b).contains(c) {
        let i = choose|i: int| 0 <= i < (a + b).len() && (a + b)[i] == c;
        if i < a.len() {
            assert(a[i] == c);
        } else {
            assert(b[i - a.len()] == c);
        }
    }
}

/// A text with no whitespace at either end is its own trim.
proof fn lemma_trim_bare(s: Seq<char>)
    requires
        s.len() > 0 ==> !is_ws(s[0]) && !is_ws(s.last()),
    ensures
        trim(s) == s,
{
    if s.len() > 0 {
        lemma_lead_ws(s, 0);
        assert(s.skip(0) =~= s);
        lemma_trail_ws(s, 0);
        assert(s.take(s.len() as int) =~= s);
    } else {
        assert(s.skip(lead_ws(s) as int) =~= s);
        assert(s.take(0) =~= s);
    }
}

/// A text that is its own trim has no whitespace at either end.
proof fn lemma_trim_fixed(s: Seq<char>)
    requires
        trim(s) == s,
    ensures
        s.len() > 0 ==> !is_ws(s[0]) && !is_ws(s.last()),
{
    lemma_lead_ws_bound(s);
    let t = trim_start(s);
    lemma_trail_ws_bound(t);
    if s.len() > 0 && is_ws(s[0]) {
        assert(trim(s).len() < s.len());
    }
    if s.len() > 0 && !is_ws(s[0]) && is_ws(s.last()) {
        lemma_lead_ws(s, 0);
        assert(t =~= s);
        assert(trail_ws(t) >= 1);
        assert(trim(s).len() < s.len());
    }
}

/// Leading space goes with the trim.
proof fn lemma_trim_space_before(v: Seq<char>)
    ensures
        trim(seq![' '] + v) == trim(v),
{
    let s = seq![' '] + v;
    assert(s.drop_first() =~= v);
    assert(is_ws(' '));
    assert(lead_ws(s) == 1 + lead_ws(v));
    lemma_lead_ws_bound(v);
    assert(s.skip(lead_ws(s) as int) =~= v.skip(lead_ws(v) as int));
}

/// Trailing space goes with the trim.
proof fn lemma_trim_space_after(k: Seq<char>)
    requires
        k.len() > 0,
        !is_ws(k[0]),
        !is_ws(k.last()),
    ensures
        trim(k + seq![' ']) == k,
{
    let s = k + seq![' '];
    lemma_lead_ws(s, 0);
    assert(s.skip(0) =~= s);
    assert(s.drop_last() =~= k);
    assert(is_ws(' '));
    lemma_trail_ws(k, 0);
    assert(trail_ws(s) == 1);
    assert(s.take(s.len() - 1) =~= k);
}

proof fn lemma_eq_from(line: Seq<char>, p: int, i: int)
    requires
        0 <= i <= p < line.len(),
        line[p] == '=',
        forall|k: int| i <= k < p ==> line[k] != '=',
    ensures
        eq_from(line, i) == p,
    decreases p - i,
{
    if i < p {
        lemma_eq_from(line, p, i + 1);
    }
}

/// A `key = value` line gives back its key and value.
proof fn lemma_line_pair(k: Seq<char>, v: Seq<char>)
    requires
        k.len() > 0,
        !is_ws(k[0]),
        !is_ws(k.last()),
        !k.contains('='),
        trim(v) == v,
    ensures
        line_pair(k + seq![' ', '=', ' '] + v) == Some((k, v)),
{
    let line = k + seq![' ', '=', ' '] + v;
    let p = k.len() as int + 1;
    assert forall|j: int| 0 <= j < p implies line[j] != '=' by {
        if j < k.len() {
            assert(line[j] == k[j]);
            if k[j] == '=' {
                assert(k.contains('='));
            }
        }
    }
    lemma_eq_from(line, p, 0);
    assert(line.take(p) =~= k + seq![' ']);
    lemma_trim_space_after(k);
    assert(line.skip(p + 1) =~= seq![' '] + v);
    lemma_trim_space_before(v);
}

/// What is written to an `.info` file reads back unchanged, provided that
/// no text field holds a line break or begins or ends with whitespace.
pub proof fn law_info_round_trip(m: ProfileMetadataInfo)
    requires
        !m.sync_info@.contains('\n'),
        trim(m.sync_info@) == m.sync_info@,
        !m.user_id@.contains('\n'),
        trim(m.user_id@) == m.user_id@,
        !m.setting_id@.contains('\n'),
        trim(m.setting_id@) == m.setting_id@,
        !m.base_id@.contains('\n'),
        trim(m.base_id@) == m.base_id@,
    ensures
        parsed_info(info_text(m)) == meta_view(m),
{
    reveal_strlit("sync_info = ");
    reveal_strlit("\nuser_id = ");
    reveal_strlit("\nsetting_id = ");
    reveal_strlit("\nbase_id = ");
    reveal_strlit("\nupdated_time = ");
    reveal_strlit("\n");
    reveal_strlit("sync_info");
    reveal_strlit("user_id");
    reveal_strlit("setting_id");
    reveal_strlit("base_id");
    reveal_strlit("updated_time");
    let a = m.sync_info@;
    let b = m.user_id@;
    let c = m.setting_id@;
    let dd = m.base_id@;
    let d = decimal(m.updated_time as nat);
    crate::profile::generator::lemma_decimal_digits(m.updated_time as nat);
    let k1 = "sync_info"@;
    let k2 = "user_id"@;
    let k3 = "setting_id"@;
    let k4 = "base_id"@;
    let k5 = "updated_time"@;
    let sep = seq![' ', '=', ' '];
    let l1 = k1 + sep + a;
    let l2 = k2 + sep + b;
    let l3 = k3 + sep + c;
    let l4 = k4 + sep + dd;
    let l5 = k5 + sep + d;
    let e = Seq::<char>::empty();
    let r5 = l5 + seq!['\n'] + e;
    let r4 = l4 + seq!['\n'] + r5;
    let r3 = l3 + seq!['\n'] + r4;
    let r2 = l2 + seq!['\n'] + r3;
    let r1 = l1 + seq!['\n'] + r2;
    assert(info_text(m) =~= r1);
    // No line holds a line break.
    assert(!(k1 + sep).contains('\n'));
    assert(!(k2 + sep).contains('\n'));
    assert(!(k3 + sep).contains('\n'));
    assert(!(k4 + sep).contains('\n'));
    assert(!(k5 + sep).contains('\n'));
    assert(!d.contains('\n')) by {
        if d.contains('\n') {
            let i = choose|i: int| 0 <= i < d.len() && d[i] == '\n';
            assert(crate::fixed::is_digit(d[i]));
        }
    }
    lemma_no_char_concat(k1 + sep, a, '\n');
    lemma_no_char_concat(k2 + sep, b, '\n');
    lemma_no_char_concat(k3 + sep, c, '\n');
    lemma_no_char_concat(k4 + sep, dd, '\n');
    lemma_no_char_concat(k5 + sep, d, '\n');
    lemma_split_first(l5, e);
    lemma_split_first(l4, r5);
    lemma_split_first(l3, r4);
    lemma_split_first(l2, r3);
    lemma_split_first(l1, r2);
    assert(split_on(e, '\n') =~= seq![e]);
    let lines = seq![l1, l2, l3, l4, l5, e];
    assert(split_on(info_text(m), '\n') =~= lines);
    // Each line gives back its key and value.
    assert(!k1.contains('='));
    assert(!k2.contains('='));
    assert(!k3.contains('='));
    assert(!k4.contains('='));
    assert(!k5.contains('='));
    lemma_line_pair(k1, a);
    lemma_line_pair(k2, b);
    lemma_line_pair(k3, c);
    lemma_line_pair(k4, dd);
    assert(crate::fixed::is_digit(d[0]) && crate::fixed::is_digit(d.last()));
    lemma_trim_bare(d);
    lemma_line_pair(k5, d);
    assert(line_pair(e) is None);
    // The last line for each key.
    let s5 = seq![l1, l2, l3, l4, l5];
    let s4 = seq![l1, l2, l3, l4];
    let s3 = seq![l1, l2, l3];
    let s2 = seq![l1, l2];
    let s1 = seq![l1];
    assert(lines.drop_last() =~= s5);
    assert(s5.drop_last() =~= s4);
    assert(s4.drop_last() =~= s3);
    assert(s3.drop_last() =~= s2);
    assert(s2.drop_last() =~= s1);
    assert(k1 != k2 && k1 != k3 && k1 != k4 && k1 != k5);
    assert(k2[0] != k4[0]);
    assert(k2 != k3 && k2 != k4 && k2 != k5);
    assert(k3 != k4 && k3 != k5);
    assert(k4 != k5);
    assert(last_value(s5, k5) == Some(d));
    assert(last_value(lines, k5) == Some(d));
    assert(last_value(s4, k4) == Some(dd));
    assert(last_value(s5, k4) == Some(dd));
    assert(last_value(lines, k4) == Some(dd));
    assert(last_value(s3, k3) == Some(c));
    assert(last_value(s4, k3) == Some(c));
    assert(last_value(s5, k3) == Some(c));
    assert(last_value(lines, k3) == Some(c));
    assert(last_value(s2, k2) == Some(b));
    assert(last_value(s3, k2) == Some(b));
    assert(last_value(s4, k2) == Some(b));
    assert(last_value(s5, k2) == Some(b));
    assert(last_value(lines, k2) == Some(b));
    assert(last_value(s1, k1) == Some(a));
    assert(last_value(s2, k1) == Some(a));
    assert(last_value(s3, k1) == Some(a));
    assert(last_value(s4, k1) == Some(a));
    assert(last_value(s5, k1) == Some(a));
    assert(last_value(lines, k1) == Some(a));
    assert(unsigned_digits(d) == Some(d));
}

} // verus!
