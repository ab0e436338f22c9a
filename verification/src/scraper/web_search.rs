//! Web search fallback for finding filament specification pages: which
//! result links are worth visiting.

use vstd::prelude::*;
use crate::scraper::html_extractor::{hrefs_of, opt_strings_view, selected_hrefs};
use crate::text::{
    chars_of, contains_seq, opt_view, contains_str, find_seq, occurs_at, starts_with_seq,
    starts_with_str, string_of, lowercase, lowercase_of, push_str,
};

verus! {

broadcast use vstd::string::group_string_axioms;

/// The (lowercased) URL names a search engine, a social site or a shopping
/// cart or login page.
pub open spec fn excluded_url(u: Seq<char>) -> bool {
    contains_seq(u, "google.com"@)
        || contains_seq(u, "bing.com"@)
        || contains_seq(u, "yahoo.com"@)
        || contains_seq(u, "duckduckgo.com"@)
        || contains_seq(u, "facebook.com"@)
        || contains_seq(u, "twitter.com"@)
        || contains_seq(u, "instagram.com"@)
        || contains_seq(u, "youtube.com"@)
        || contains_seq(u, "amazon.com/gp"@)
        || contains_seq(u, "cart"@)
        || contains_seq(u, "checkout"@)
        || contains_seq(u, "signin"@)
        || contains_seq(u, "login"@)
        || contains_seq(u, "reddit.com"@)
        || contains_seq(u, "quora.com"@)
}

/// The (lowercased) URL names a filament maker, a spec sheet or a product page.
pub open spec fn preferred_url(u: Seq<char>) -> bool {
    contains_seq(u, "spoolscout"@)
        || contains_seq(u, "polymaker"@)
        || contains_seq(u, "esun"@)
        || contains_seq(u, "hatchbox"@)
        || contains_seq(u, "overture"@)
        || contains_seq(u, "sunlu"@)
        || contains_seq(u, "prusament"@)
        || contains_seq(u, "bambu"@)
        || contains_seq(u, "creality"@)
        || contains_seq(u, "elegoo"@)
        || contains_seq(u, "matterhackers"@)
        || contains_seq(u, "filament"@)
        || contains_seq(u, "spec"@)
        || contains_seq(u, "datasheet"@)
        || contains_seq(u, "data-sheet"@)
        || contains_seq(u, "3d-fuel"@)
        || contains_seq(u, "colorfabb"@)
        || contains_seq(u, "protopasta"@)
        || contains_seq(u, "/product"@)
}

/// Whether a search result URL likely holds filament specifications:
/// judged on its lowercase form, not excluded and preferred.
pub open spec fn likely_filament_page(url: Seq<char>) -> bool {
    !excluded_url(lowercase_of(url)) && preferred_url(lowercase_of(url))
}

fn is_excluded(u: &Vec<char>) -> (b: bool)
    ensures
        b == excluded_url(u@),
{
    contains_str(u, "google.com")
        || contains_str(u, "bing.com")
        || contains_str(u, "yahoo.com")
        || contains_str(u, "duckduckgo.com")
        || contains_str(u, "facebook.com")
        || contains_str(u, "twitter.com")
        || contains_str(u, "instagram.com")
        || contains_str(u, "youtube.com")
        || contains_str(u, "amazon.com/gp")
        || contains_str(u, "cart")
        || contains_str(u, "checkout")
        || contains_str(u, "signin")
        || contains_str(u, "login")
        || contains_str(u, "reddit.com")
        || contains_str(u, "quora.com")
}

fn is_preferred(u: &Vec<char>) -> (b: bool)
    ensures
        b == preferred_url(u@),
{
    contains_str(u, "spoolscout")
        || contains_str(u, "polymaker")
        || contains_str(u, "esun")
        || contains_str(u, "hatchbox")
        || contains_str(u, "overture")
        || contains_str(u, "sunlu")
        || contains_str(u, "prusament")
        || contains_str(u, "bambu")
        || contains_str(u, "creality")
        || contains_str(u, "elegoo")
        || contains_str(u, "matterhackers")
        || contains_str(u, "filament")
        || contains_str(u, "spec")
        || contains_str(u, "datasheet")
        || contains_str(u, "data-sheet")
        || contains_str(u, "3d-fuel")
        || contains_str(u, "colorfabb")
        || contains_str(u, "protopasta")
        || contains_str(u, "/product")
}

/// Checks whether a URL is likely to contain filament specifications.
pub fn is_likely_filament_page(url: &str) -> (b: bool)
    ensures
        b == likely_filament_page(url@),
{
    let u = lowercase(&chars_of(url));
    !is_excluded(&u) && is_preferred(&u)
}

/// An ASCII hexadecimal digit (either case).
pub open spec fn is_hex_byte(b: u8) -> bool {
    (48 <= b && b <= 57) || (65 <= b && b <= 70) || (97 <= b && b <= 102)
}

/// The value of an ASCII hexadecimal digit.
pub open spec fn hex_value(b: u8) -> int {
    if b <= 57 {
        b - 48
    } else if b <= 70 {
        b - 55
    } else {
        b - 87
    }
}

/// Percent-decoding of some bytes: `%` and two hexadecimal digits give the
/// byte they write; every other byte, a `%` that is not so followed
/// included, is kept (`+` stays `+`).
pub open spec fn percent_decoded_bytes(bs: Seq<u8>) -> Seq<u8>
    decreases bs.len(),
{
    if bs.len() == 0 {
        Seq::empty()
    } else if bs[0] == 37 && bs.len() >= 3 && is_hex_byte(bs[1]) && is_hex_byte(bs[2]) {
        seq![(hex_value(bs[1]) * 16 + hex_value(bs[2])) as u8] + percent_decoded_bytes(bs.skip(3))
    } else {
        seq![bs[0]] + percent_decoded_bytes(bs.skip(1))
    }
}

/// What `urlencoding::decode` gives for a text: its UTF-8 bytes
/// percent-decoded and read back as UTF-8; `None` when they are not UTF-8.
pub open spec fn percent_decoded(s: Seq<char>) -> Option<Seq<char>> {
    let bs = percent_decoded_bytes(vstd::utf8::encode_utf8(s));
    if vstd::utf8::valid_utf8(bs) {
        Some(vstd::utf8::decode_utf8(bs))
    } else {
        None
    }
}

/// `urlencoding::decode`: the percent-decoded text (`percent_decoded`),
/// `None` where the decoded bytes are not UTF-8; a text without `%` comes
/// back unchanged (the crate returns it borrowed as it is).
#[verifier::external_body]
fn url_decode(s: &str) -> (r: Option<String>)
    ensures
        opt_view(r) == percent_decoded(s@),
        !s@.contains('%') ==> opt_view(r) == Some(s@),
{
    urlencoding::decode(s).ok().map(|d| d.into_owned())
}

/// The first position at which `t` occurs in `s` (meaningful when it occurs).
pub open spec fn first_occurrence(s: Seq<char>, t: Seq<char>) -> int {
    choose|i: int| occurs_at(s, t, i) && forall|k: int| 0 <= k < i ==> !occurs_at(s, t, k)
}

/// The target of a DuckDuckGo redirect link: the decoded value of its first
/// `uddg=` parameter (up to the next `&`).
pub open spec fn redirect_target(href: Seq<char>) -> Option<Seq<char>> {
    if contains_seq(href, "uddg="@) {
        let rest = href.skip(first_occurrence(href, "uddg="@) + 5);
        let end = if contains_seq(rest, seq!['&']) {
            first_occurrence(rest, seq!['&'])
        } else {
            rest.len() as int
        };
        percent_decoded(rest.take(end))
    } else {
        None
    }
}

/// The URL a search result link leads to: the redirect target when there is
/// one, else the link itself when it is an absolute http(s) URL.
pub open spec fn actual_url(href: Seq<char>) -> Option<Seq<char>> {
    match redirect_target(href) {
        Some(u) => Some(u),
        None => if starts_with_seq(href, "http://"@) || starts_with_seq(href, "https://"@) {
            Some(href)
        } else {
            None
        },
    }
}

pub(crate) fn first_index(s: &Vec<char>, t: &Vec<char>) -> (r: Option<usize>)
    ensures
        match r {
            Some(i) => contains_seq(s@, t@) && i == first_occurrence(s@, t@) && i + t@.len()
                <= s@.len(),
            None => !contains_seq(s@, t@),
        },
{
    match find_seq(s, t) {
        Some(i) => {
            proof {
                assert(occurs_at(s@, t@, i as int));
                let c = first_occurrence(s@, t@);
                assert(occurs_at(s@, t@, c) && forall|k: int| 0 <= k < c ==> !occurs_at(s@, t@, k));
                if c < i {
                    assert(!occurs_at(s@, t@, c));
                } else if i < c {
                    assert(!occurs_at(s@, t@, i as int));
                }
            }
            Some(i)
        },
        None => None,
    }
}

#[verifier::rlimit(40)]
fn redirect_of(h: &Vec<char>) -> (r: Option<String>)
    ensures
        opt_view(r) == redirect_target(h@),
{
    let key = chars_of("uddg=");
    proof {
        reveal_strlit("uddg=");
        assert(key@.len() == 5);
    }
    match first_index(h, &key) {
        Some(start) => {
            let n = h.len();
            let from = start + key.len();
            let rest = crate::text::sub_chars(h, from, n);
            let amp = vec!['&'];
            let end = match first_index(&rest, &amp) {
                Some(e) => e,
                None => rest.len(),
            };
            let encoded = crate::text::sub_chars(&rest, 0, end);
            let s = string_of(&encoded);
            let r = url_decode(s.as_str());
            proof {
                assert(amp@ == seq!['&']);
                assert(rest@ =~= h@.skip(start + 5));
                assert(encoded@ =~= rest@.take(end as int));
                assert(redirect_target(h@) == percent_decoded(encoded@));
            }
            r
        },
        None => None,
    }
}

/// Extracts the actual URL from a DuckDuckGo result link.
pub fn extract_actual_url(href: &str) -> (r: Option<String>)
    ensures
        opt_view(r) == actual_url(href@),
{
    let h = chars_of(href);
    match redirect_of(&h) {
        Some(d) => Some(d),
        None => if starts_with_str(&h, "http://") || starts_with_str(&h, "https://") {
            Some(string_of(&h))
        } else {
            None
        },
    }
}

/// The result URLs worth visiting among some links: each link's actual URL,
/// when it has one and it likely holds filament specifications.
pub open spec fn likely_urls(hrefs: Seq<Option<Seq<char>>>) -> Seq<Seq<char>>
    decreases hrefs.len(),
{
    if hrefs.len() == 0 {
        Seq::empty()
    } else {
        let prev = likely_urls(hrefs.drop_last());
        match hrefs.last() {
            Some(h) => match actual_url(h) {
                Some(u) => if likely_filament_page(u) {
                    prev.push(u)
                } else {
                    prev
                },
                None => prev,
            },
            None => prev,
        }
    }
}

/// The links of a selector, none when it is refused.
pub open spec fn links_or_none(h: Option<Seq<Option<Seq<char>>>>) -> Seq<Option<Seq<char>>> {
    match h {
        Some(v) => v,
        None => Seq::empty(),
    }
}

/// The result URLs of a DuckDuckGo result page: from its result links
/// (any link when that selector is refused), else from every link to an
/// http(s) address; at most five.
pub open spec fn search_results(html: Seq<char>) -> Seq<Seq<char>> {
    let primary = match hrefs_of(html, "a.result__a"@) {
        Some(h) => h,
        None => links_or_none(hrefs_of(html, "a[href]"@)),
    };
    let urls = likely_urls(primary);
    let all = if urls.len() == 0 {
        likely_urls(links_or_none(hrefs_of(html, "a[href*='http']"@)))
    } else {
        urls
    };
    if all.len() <= 5 {
        all
    } else {
        all.take(5)
    }
}

fn collect_likely(hrefs: &Vec<Option<String>>) -> (r: Vec<String>)
    ensures
        r@.map_values(|s: String| s@) == likely_urls(opt_strings_view(hrefs@)),
{
    let ghost hv = opt_strings_view(hrefs@);
    let mut urls: Vec<String> = Vec::new();
    let mut i: usize = 0;
    while i < hrefs.len()
        invariant
            i <= hrefs.len(),
            hv == opt_strings_view(hrefs@),
            urls@.map_values(|s: String| s@) == likely_urls(hv.take(i as int)),
        decreases hrefs.len() - i,
    {
        proof {
            assert(hv.take(i + 1).drop_last() == hv.take(i as int));
            assert(hv.take(i + 1).last() == hv[i as int]);
        }
        match &hrefs[i] {
            Some(h) => match extract_actual_url(h.as_str()) {
                Some(u) => if is_likely_filament_page(u.as_str()) {
                    let ghost before = urls@.map_values(|s: String| s@);
                    let ghost uv = u@;
                    urls.push(u);
                    assert(urls@.map_values(|s: String| s@) == before.push(uv));
                },
                None => {},
            },
            None => {},
        }
        i = i + 1;
    }
    assert(hv.take(hrefs.len() as int) == hv);
    urls
}

/// Extracts the result URLs from a DuckDuckGo HTML result page.
pub fn extract_search_results(html: &str) -> (r: Vec<String>)
    ensures
        r@.map_values(|s: String| s@) == search_results(html@),
{
    let primary = match selected_hrefs(html, "a.result__a") {
        Some(h) => h,
        None => match selected_hrefs(html, "a[href]") {
            Some(h) => h,
            None => Vec::new(),
        },
    };
    proof {
        let e: Seq<Option<String>> = Seq::empty();
        assert(opt_strings_view(e) =~= Seq::<Option<Seq<char>>>::empty());
    }
    let mut urls = collect_likely(&primary);
    if urls.len() == 0 {
        let generic = match selected_hrefs(html, "a[href*='http']") {
            Some(h) => h,
            None => Vec::new(),
        };
        urls = collect_likely(&generic);
    }
    if urls.len() > 5 {
        urls.truncate(5);
    }
    proof {
        assert(urls@.map_values(|s: String| s@) =~= search_results(html@));
    }
    urls
}

// ---------------------------------------------------------------------------
// The search request
// ---------------------------------------------------------------------------

/// A byte that percent-encoding leaves as it is: an ASCII letter or digit,
/// `-`, `.`, `_` or `~`.
pub open spec fn unreserved_byte(b: u8) -> bool {
    (48 <= b && b <= 57) || (65 <= b && b <= 90) || (97 <= b && b <= 122) || b == 45 || b == 46 || b == 95
        || b == 126
}

/// An upper-case hexadecimal digit.
pub open spec fn upper_hex(d: nat) -> char {
    if d < 10 {
        (d + 48) as char
    } else {
        (d + 55) as char
    }
}

/// The percent-encoding of some bytes: unreserved bytes as their
/// characters, every other byte as `%` and two upper-case hexadecimal
/// digits.
pub open spec fn percent_encoded_bytes(bs: Seq<u8>) -> Seq<char>
    decreases bs.len(),
{
    if bs.len() == 0 {
        Seq::empty()
    } else {
        let b = bs.last();
        percent_encoded_bytes(bs.drop_last()) + if unreserved_byte(b) {
            seq![b as char]
        } else {
            seq!['%', upper_hex((b as nat) / 16), upper_hex((b as nat) % 16)]
        }
    }
}

/// The percent-encoding of a text: that of its UTF-8 bytes.
pub open spec fn percent_encoded_of(s: Seq<char>) -> Seq<char> {
    percent_encoded_bytes(vstd::utf8::encode_utf8(s))
}

/// `urlencoding::encode`: the text's UTF-8 bytes percent-encoded, every
/// byte but ASCII letters, digits and `-`, `.`, `_`, `~` written as `%` and
/// two upper-case hexadecimal digits (`percent_encoded_of`).
#[verifier::external_body]
fn url_encode(s: &str) -> (r: String)
    ensures
        r@ == percent_encoded_of(s@),
{
    urlencoding::encode(s).into_owned()
}

/// The words added to a filament name in a web search.
pub const SEARCH_WORDS: &'static str = " filament specs temperature";

/// The DuckDuckGo HTML search for a filament's specification pages.
pub open spec fn search_request_url(filament_name: Seq<char>) -> Seq<char> {
    "https://html.duckduckgo.com/html/?q="@ + percent_encoded_of(filament_name + SEARCH_WORDS@)
}

/// The URL of the web search for a filament (see `search_request_url`).
pub fn search_page_url(filament_name: &str) -> (r: String)
    ensures
        r@ == search_request_url(filament_name@),
{
    let mut q = chars_of(filament_name);
    push_str(&mut q, SEARCH_WORDS);
    let encoded = url_encode(string_of(&q).as_str());
    let mut out = chars_of("https://html.duckduckgo.com/html/?q=");
    push_str(&mut out, encoded.as_str());
    string_of(&out)
}

} // verus!
