//! Brand adapters: map a filament name to candidate product-page URLs.

use vstd::prelude::*;
use crate::text::{chars_of, join, join_with, push_str, string_of};

pub mod bambu;
pub mod creality;
pub mod elegoo;
pub mod esun;
pub mod hatchbox;
pub mod overture;
pub mod polymaker;
pub mod prusament;
pub mod spoolscout;
pub mod sunlu;

use bambu::Bambu;
use creality::Creality;
use elegoo::Elegoo;
use esun::Esun;
use hatchbox::Hatchbox;
use overture::Overture;
use polymaker::Polymaker;
use prusament::Prusament;
use sunlu::Sunlu;

verus! {

broadcast use vstd::string::group_string_axioms;

/// A manufacturer whose product pages can be located from a filament name.
pub trait BrandAdapter {
    /// Lowercase brand identifier.
    fn brand_name(&self) -> &'static str;

    /// Other lowercase spellings of the brand.
    fn brand_aliases(&self) -> Vec<&'static str>;

    /// Candidate URLs of the product page, best first.
    fn resolve_urls(&self, filament_name: &str) -> Vec<String>;

    /// URL of the brand's own site search, if it has one.
    fn search_url(&self, query: &str) -> Option<String>;
}

/// ASCII lowercase of one character.
pub open spec fn ascii_lower(c: char) -> char {
    if 'A' <= c && c <= 'Z' {
        ((c as u32) + 32) as char
    } else {
        c
    }
}

/// ASCII lowercase of a character sequence.
pub open spec fn ascii_lower_seq(s: Seq<char>) -> Seq<char> {
    s.map_values(|c: char| ascii_lower(c))
}

/// ASCII letters and digits.
pub open spec fn is_alnum(c: char) -> bool {
    ('a' <= c && c <= 'z') || ('A' <= c && c <= 'Z') || ('0' <= c && c <= '9')
}

fn to_ascii_lower(c: char) -> (r: char)
    ensures
        r == ascii_lower(c),
{
    if 'A' <= c && c <= 'Z' {
        let n = ((c as u32) + 32) as u8;
        n as char
    } else {
        c
    }
}

fn alnum(c: char) -> (b: bool)
    ensures
        b == is_alnum(c),
{
    ('a' <= c && c <= 'z') || ('A' <= c && c <= 'Z') || ('0' <= c && c <= '9')
}

/// ASCII lowercase of a character vector.
pub fn ascii_lower_chars(v: &Vec<char>) -> (r: Vec<char>)
    ensures
        r@ == ascii_lower_seq(v@),
{
    let mut r: Vec<char> = Vec::new();
    let mut i: usize = 0;
    while i < v.len()
        invariant
            i <= v.len(),
            r@ == ascii_lower_seq(v@.take(i as int)),
        decreases v.len() - i,
    {
        let c = to_ascii_lower(v[i]);
        r.push(c);
        proof {
            assert(ascii_lower_seq(v@.take(i + 1)) =~= ascii_lower_seq(v@.take(i as int)).push(c));
        }
        i = i + 1;
    }
    proof {
        assert(v@.take(v.len() as int) == v@);
    }
    r
}

/// State after reading a prefix for the alphanumeric-run split:
/// the completed runs and the run being read.
pub open spec fn run_state(s: Seq<char>, n: int) -> (Seq<Seq<char>>, Seq<char>)
    decreases n,
{
    if n <= 0 {
        (Seq::empty(), Seq::empty())
    } else {
        let (done, cur) = run_state(s, n - 1);
        if is_alnum(s[n - 1]) {
            (done, cur.push(s[n - 1]))
        } else if cur.len() > 0 {
            (done.push(cur), Seq::empty())
        } else {
            (done, cur)
        }
    }
}

/// The maximal runs of ASCII letters and digits of `s`, in order.
pub open spec fn alnum_runs(s: Seq<char>) -> Seq<Seq<char>> {
    let (done, cur) = run_state(s, s.len() as int);
    if cur.len() > 0 {
        done.push(cur)
    } else {
        done
    }
}

/// URL slug of a name: the ASCII-lowercased runs of letters and digits,
/// joined with `-` ("Polymaker PLA Pro" gives "polymaker-pla-pro").
pub open spec fn slug(s: Seq<char>) -> Seq<char> {
    join(alnum_runs(ascii_lower_seq(s)), "-"@)
}

/// The URL slug of a name (see `slug`).
pub fn slugify_chars(v: &Vec<char>) -> (r: Vec<char>)
    ensures
        r@ == slug(v@),
{
    let l = ascii_lower_chars(v);
    let mut done: Vec<Vec<char>> = Vec::new();
    let mut cur: Vec<char> = Vec::new();
    let mut i: usize = 0;
    while i < l.len()
        invariant
            i <= l.len(),
            (done@.map_values(|w: Vec<char>| w@), cur@) == run_state(l@, i as int),
        decreases l.len() - i,
    {
        let c = l[i];
        if alnum(c) {
            cur.push(c);
        } else if cur.len() > 0 {
            let ghost old_done = done@;
            let w = cur;
            done.push(w);
            cur = Vec::new();
            proof {
                assert(done@.map_values(|w: Vec<char>| w@) == old_done.map_values(
                    |w: Vec<char>| w@,
                ).push(w@));
            }
        }
        i = i + 1;
    }
    if cur.len() > 0 {
        let ghost old_done = done@;
        let w = cur;
        done.push(w);
        proof {
            assert(done@.map_values(|w: Vec<char>| w@) == old_done.map_values(|w: Vec<char>| w@).push(
                w@,
            ));
        }
    }
    let sep = chars_of("-");
    join_with(&done, &sep)
}

/// The URL slug of a name (see `slug`).
pub fn slugify(s: &str) -> (r: String)
    ensures
        r@ == slug(s@),
{
    let v = chars_of(s);
    let r = slugify_chars(&v);
    string_of(&r)
}

/// `name` begins with `brand`, compared ASCII-case-insensitively, and the
/// brand is followed by the end of the name or by a character that is not
/// an ASCII letter or digit.
pub open spec fn has_brand_prefix(name: Seq<char>, brand: Seq<char>) -> bool {
    &&& brand.len() <= name.len()
    &&& ascii_lower_seq(name.take(brand.len() as int)) == ascii_lower_seq(brand)
    &&& (brand.len() == name.len() || !is_alnum(name[brand.len() as int]))
}

/// `name` without a leading brand (see `has_brand_prefix`), trimmed of
/// surrounding whitespace; a name not led by the brand is only trimmed.
pub open spec fn strip_brand_seq(name: Seq<char>, brand: Seq<char>) -> Seq<char> {
    if has_brand_prefix(name, brand) {
        crate::text::trim(name.skip(brand.len() as int))
    } else {
        crate::text::trim(name)
    }
}

/// `name` without a leading `brand` (see `strip_brand_seq`).
pub fn strip_brand(name: &str, brand: &str) -> (r: String)
    ensures
        r@ == strip_brand_seq(name@, brand@),
{
    let n = chars_of(name);
    let b = chars_of(brand);
    let mut prefixed = false;
    if b.len() <= n.len() {
        let mut head: Vec<char> = Vec::new();
        let mut i: usize = 0;
        while i < b.len()
            invariant
                i <= b.len() <= n.len(),
                head@ == n@.take(i as int),
            decreases b.len() - i,
        {
            head.push(n[i]);
            proof {
                assert(n@.take(i + 1) == n@.take(i as int).push(n@[i as int]));
            }
            i = i + 1;
        }
        let hl = ascii_lower_chars(&head);
        let bl = ascii_lower_chars(&b);
        if crate::text::chars_eq(&hl, &bl) {
            prefixed = b.len() == n.len() || !alnum(n[b.len()]);
        }
    }
    let rest = if prefixed {
        let mut rest: Vec<char> = Vec::new();
        let mut i: usize = b.len();
        while i < n.len()
            invariant
                b.len() <= i <= n.len(),
                rest@ == n@.subrange(b.len() as int, i as int),
            decreases n.len() - i,
        {
            rest.push(n[i]);
            proof {
                assert(n@.subrange(b.len() as int, i + 1) == n@.subrange(b.len() as int, i as int).push(
                    n@[i as int],
                ));
            }
            i = i + 1;
        }
        proof {
            assert(rest@ == n@.skip(b.len() as int));
        }
        rest
    } else {
        n
    };
    let t = crate::text::trim_chars(&rest);
    string_of(&t)
}

/// `prefix` followed by `tail`, as a `String`.
pub fn concat_url(prefix: &str, tail: &str) -> (r: String)
    ensures
        r@ == prefix@ + tail@,
{
    let mut v: Vec<char> = Vec::new();
    push_str(&mut v, prefix);
    push_str(&mut v, tail);
    string_of(&v)
}

/// `prefix`, `middle` and `suffix` concatenated, as a `String`.
pub fn concat3(prefix: &str, middle: &str, suffix: &str) -> (r: String)
    ensures
        r@ == prefix@ + middle@ + suffix@,
{
    let mut v: Vec<char> = Vec::new();
    push_str(&mut v, prefix);
    push_str(&mut v, middle);
    push_str(&mut v, suffix);
    string_of(&v)
}

/// The adapter whose brand leads a filament name.
pub enum Adapter {
    Bambu(Bambu),
    Creality(Creality),
    Elegoo(Elegoo),
    Esun(Esun),
    Hatchbox(Hatchbox),
    Overture(Overture),
    Polymaker(Polymaker),
    Prusament(Prusament),
    Sunlu(Sunlu),
}

/// The brand spellings that select each adapter, in the order they are tried.
pub open spec fn adapter_keys() -> Seq<(Seq<char>, nat)> {
    seq![
        ("bambu lab"@, 0), ("bambulab"@, 0), ("bambu"@, 0),
        ("creality"@, 1),
        ("elegoo"@, 2),
        ("esun3d"@, 3), ("esun"@, 3),
        ("hatchbox"@, 4),
        ("overture3d"@, 5), ("overture"@, 5),
        ("polymaker"@, 6),
        ("prusament"@, 7), ("prusa"@, 7),
        ("sunlu"@, 8),
    ]
}

/// The brand identifier of the adapter with index `i`.
pub open spec fn adapter_brand(i: nat) -> Seq<char> {
    if i == 0 {
        "bambu"@
    } else if i == 1 {
        "creality"@
    } else if i == 2 {
        "elegoo"@
    } else if i == 3 {
        "esun"@
    } else if i == 4 {
        "hatchbox"@
    } else if i == 5 {
        "overture"@
    } else if i == 6 {
        "polymaker"@
    } else if i == 7 {
        "prusament"@
    } else {
        "sunlu"@
    }
}

/// The candidate URLs of the adapter with index `i` for a filament name.
pub open spec fn adapter_urls(i: nat, name: Seq<char>) -> Seq<Seq<char>> {
    if i == 0 {
        bambu::bambu_urls(name)
    } else if i == 1 {
        creality::creality_urls(name)
    } else if i == 2 {
        elegoo::elegoo_urls(name)
    } else if i == 3 {
        esun::esun_urls(name)
    } else if i == 4 {
        hatchbox::hatchbox_urls(name)
    } else if i == 5 {
        overture::overture_urls(name)
    } else if i == 6 {
        polymaker::polymaker_urls(name)
    } else if i == 7 {
        prusament::prusament_urls(name)
    } else {
        sunlu::sunlu_urls(name)
    }
}

impl Adapter {
    /// Index of the adapter in the order of `adapter_keys`.
    pub open spec fn index(&self) -> nat {
        match self {
            Adapter::Bambu(_) => 0,
            Adapter::Creality(_) => 1,
            Adapter::Elegoo(_) => 2,
            Adapter::Esun(_) => 3,
            Adapter::Hatchbox(_) => 4,
            Adapter::Overture(_) => 5,
            Adapter::Polymaker(_) => 6,
            Adapter::Prusament(_) => 7,
            Adapter::Sunlu(_) => 8,
        }
    }

    /// The brand identifier of the adapter.
    pub fn brand_name(&self) -> (r: &'static str)
        ensures
            r@ == adapter_brand(self.index()),
    {
        match self {
            Adapter::Bambu(a) => a.brand_name(),
            Adapter::Creality(a) => a.brand_name(),
            Adapter::Elegoo(a) => a.brand_name(),
            Adapter::Esun(a) => a.brand_name(),
            Adapter::Hatchbox(a) => a.brand_name(),
            Adapter::Overture(a) => a.brand_name(),
            Adapter::Polymaker(a) => a.brand_name(),
            Adapter::Prusament(a) => a.brand_name(),
            Adapter::Sunlu(a) => a.brand_name(),
        }
    }

    /// Candidate URLs of the product page for the adapter's brand.
    pub fn resolve_urls(&self, filament_name: &str) -> (r: Vec<String>)
        ensures
            r@.map_values(|u: String| u@) == adapter_urls(self.index(), filament_name@),
    {
        match self {
            Adapter::Bambu(a) => a.resolve_urls(filament_name),
            Adapter::Creality(a) => a.resolve_urls(filament_name),
            Adapter::Elegoo(a) => a.resolve_urls(filament_name),
            Adapter::Esun(a) => a.resolve_urls(filament_name),
            Adapter::Hatchbox(a) => a.resolve_urls(filament_name),
            Adapter::Overture(a) => a.resolve_urls(filament_name),
            Adapter::Polymaker(a) => a.resolve_urls(filament_name),
            Adapter::Prusament(a) => a.resolve_urls(filament_name),
            Adapter::Sunlu(a) => a.resolve_urls(filament_name),
        }
    }
}

fn adapter_for(index: usize) -> (a: Adapter)
    requires
        index < 9,
    ensures
        a.index() == index,
{
    if index == 0 {
        Adapter::Bambu(Bambu)
    } else if index == 1 {
        Adapter::Creality(Creality)
    } else if index == 2 {
        Adapter::Elegoo(Elegoo)
    } else if index == 3 {
        Adapter::Esun(Esun)
    } else if index == 4 {
        Adapter::Hatchbox(Hatchbox)
    } else if index == 5 {
        Adapter::Overture(Overture)
    } else if index == 6 {
        Adapter::Polymaker(Polymaker)
    } else if index == 7 {
        Adapter::Prusament(Prusament)
    } else {
        Adapter::Sunlu(Sunlu)
    }
}

/// The adapter selected by the first key of `keys` that leads the trimmed name.
pub open spec fn first_adapter(name: Seq<char>, keys: Seq<(Seq<char>, nat)>) -> Option<nat>
    decreases keys.len(),
{
    if keys.len() == 0 {
        None
    } else if has_brand_prefix(name, keys[0].0) {
        Some(keys[0].1)
    } else {
        first_adapter(name, keys.drop_first())
    }
}

fn key_table() -> (r: Vec<(&'static str, usize)>)
    ensures
        r@.len() == adapter_keys().len(),
        forall|i: int|
            0 <= i < r@.len() ==> (#[trigger] r@[i]).0@ == adapter_keys()[i].0 && r@[i].1
                == adapter_keys()[i].1 && r@[i].1 < 9,
{
    let r = vec![
        ("bambu lab", 0usize), ("bambulab", 0), ("bambu", 0),
        ("creality", 1),
        ("elegoo", 2),
        ("esun3d", 3), ("esun", 3),
        ("hatchbox", 4),
        ("overture3d", 5), ("overture", 5),
        ("polymaker", 6),
        ("prusament", 7), ("prusa", 7),
        ("sunlu", 8),
    ];
    proof {
        assert(r@.len() == 14);
    }
    r
}

fn has_prefix_exec(name: &Vec<char>, brand: &str) -> (b: bool)
    ensures
        b == has_brand_prefix(name@, brand@),
{
    let b = chars_of(brand);
    if b.len() > name.len() {
        return false;
    }
    let mut head: Vec<char> = Vec::new();
    let mut i: usize = 0;
    while i < b.len()
        invariant
            i <= b.len() <= name.len(),
            head@ == name@.take(i as int),
        decreases b.len() - i,
    {
        head.push(name[i]);
        proof {
            assert(name@.take(i + 1) == name@.take(i as int).push(name@[i as int]));
        }
        i = i + 1;
    }
    let hl = ascii_lower_chars(&head);
    let bl = ascii_lower_chars(&b);
    if !crate::text::chars_eq(&hl, &bl) {
        return false;
    }
    b.len() == name.len() || !alnum(name[b.len()])
}

/// The adapter of the brand that leads the (trimmed) filament name, if any.
pub fn find_adapter(name: &str) -> (r: Option<Adapter>)
    ensures
        match first_adapter(crate::text::trim(name@), adapter_keys()) {
            Some(i) => r matches Some(a) && a.index() == i,
            None => r is None,
        },
{
    let v = chars_of(name);
    let t = crate::text::trim_chars(&v);
    let keys = key_table();
    let mut i: usize = 0;
    proof {
        assert(adapter_keys().skip(0) == adapter_keys());
    }
    while i < keys.len()
        invariant
            i <= keys@.len() == adapter_keys().len(),
            t@ == crate::text::trim(name@),
            forall|j: int|
                0 <= j < keys@.len() ==> (#[trigger] keys@[j]).0@ == adapter_keys()[j].0
                    && keys@[j].1 == adapter_keys()[j].1 && keys@[j].1 < 9,
            first_adapter(t@, adapter_keys()) == first_adapter(t@, adapter_keys().skip(i as int)),
        decreases keys.len() - i,
    {
        let ghost rest = adapter_keys().skip(i as int);
        proof {
            assert(rest[0] == adapter_keys()[i as int]);
            assert(rest.drop_first() == adapter_keys().skip(i + 1));
        }
        let (k, idx) = keys[i];
        if has_prefix_exec(&t, k) {
            proof {
                assert(keys@[i as int].1 == adapter_keys()[i as int].1);
                assert(idx == keys@[i as int].1);
                assert(first_adapter(t@, rest) == Some(rest[0].1));
            }
            return Some(adapter_for(idx));
        }
        i = i + 1;
    }
    proof {
        assert(adapter_keys().skip(keys@.len() as int).len() == 0);
    }
    None
}

} // verus!
