//! The filament catalog scraped from SpoolScout: entries and the slug
//! conventions that names and materials are read from.

use vstd::prelude::*;
use crate::scraper::html_extractor::{hrefs_of, opt_strings_view, selected_hrefs};
use crate::text::{
    chars_of, chars_eq, contains, contains_seq, eq_str, is_whitespace, is_ws, join, lowercase, lowercase_of,
    starts_with, starts_with_seq, join_with, push_all, split_on, split_on_char, split_whitespace, string_of, trim,
    trim_chars, uppercase, uppercase_of, words,
};

verus! {

broadcast use vstd::string::group_string_axioms;

/// A single filament entry in the catalog.
#[derive(Debug, Clone)]
pub struct CatalogEntry {
    pub brand: String,
    pub name: String,
    pub material: String,
    pub url_slug: String,
    pub full_url: String,
}

/// Abbreviations that a title keeps in upper case.
pub open spec fn is_kept_abbreviation(u: Seq<char>) -> bool {
    u == "PLA"@ || u == "ABS"@ || u == "PETG"@ || u == "TPU"@ || u == "ASA"@ || u == "PA"@
        || u == "PC"@ || u == "CF"@ || u == "GF"@
}

/// A word with its first character upper-cased (Unicode mapping of that
/// character) and the rest unchanged.
pub open spec fn capitalized(w: Seq<char>) -> Seq<char> {
    if w.len() == 0 {
        Seq::empty()
    } else {
        uppercase_of(seq![w[0]]) + w.drop_first()
    }
}

/// How one slug word appears in a title.
pub open spec fn title_word(w: Seq<char>) -> Seq<char> {
    if is_kept_abbreviation(uppercase_of(w)) {
        uppercase_of(w)
    } else {
        capitalized(w)
    }
}

/// A slug in title case: its `-`-separated words, each as `title_word`,
/// joined by single spaces.
pub open spec fn titlecase(slug: Seq<char>) -> Seq<char> {
    join(split_on(slug, '-').map_values(|w: Seq<char>| title_word(w)), seq![' '])
}

fn is_abbreviation(u: &Vec<char>) -> (b: bool)
    ensures
        b == is_kept_abbreviation(u@),
{
    eq_str(u, "PLA") || eq_str(u, "ABS") || eq_str(u, "PETG") || eq_str(u, "TPU") || eq_str(
        u,
        "ASA",
    ) || eq_str(u, "PA") || eq_str(u, "PC") || eq_str(u, "CF") || eq_str(u, "GF")
}

fn capitalize(w: &Vec<char>) -> (r: Vec<char>)
    ensures
        r@ == capitalized(w@),
{
    if w.len() == 0 {
        Vec::new()
    } else {
        let first = vec![w[0]];
        proof {
            assert(first@ == seq![w@[0]]);
        }
        let mut r = uppercase(&first);
        let mut i: usize = 1;
        while i < w.len()
            invariant
                1 <= i <= w.len(),
                r@ == uppercase_of(seq![w@[0]]) + w@.subrange(1, i as int),
            decreases w.len() - i,
        {
            r.push(w[i]);
            proof {
                assert(w@.subrange(1, i + 1) == w@.subrange(1, i as int).push(w@[i as int]));
            }
            i = i + 1;
        }
        proof {
            assert(w@.subrange(1, w@.len() as int) == w@.drop_first());
        }
        r
    }
}

fn title_word_of(w: &Vec<char>) -> (r: Vec<char>)
    ensures
        r@ == title_word(w@),
{
    let upper = uppercase(w);
    if is_abbreviation(&upper) {
        upper
    } else {
        capitalize(w)
    }
}

fn titlecase_chars(slug: &Vec<char>) -> (r: Vec<char>)
    ensures
        r@ == titlecase(slug@),
{
    let parts = split_on_char(slug, '-');
    let ghost ps = parts@.map_values(|w: Vec<char>| w@);
    let mut titled: Vec<Vec<char>> = Vec::new();
    let mut i: usize = 0;
    while i < parts.len()
        invariant
            i <= parts.len(),
            ps == parts@.map_values(|w: Vec<char>| w@),
            ps == split_on(slug@, '-'),
            titled@.map_values(|w: Vec<char>| w@) == ps.take(i as int).map_values(
                |w: Seq<char>| title_word(w),
            ),
        decreases parts.len() - i,
    {
        let t = title_word_of(&parts[i]);
        let ghost before = titled@.map_values(|w: Vec<char>| w@);
        titled.push(t);
        proof {
            assert(titled@.map_values(|w: Vec<char>| w@) == before.push(title_word(ps[i as int])));
            assert(ps.take(i + 1) == ps.take(i as int).push(ps[i as int]));
            assert(ps.take(i + 1).map_values(|w: Seq<char>| title_word(w)) == ps.take(
                i as int,
            ).map_values(|w: Seq<char>| title_word(w)).push(title_word(ps[i as int])));
        }
        i = i + 1;
    }
    proof {
        assert(ps.take(parts.len() as int) == ps);
    }
    let sep = vec![' '];
    proof {
        assert(sep@ == seq![' ']);
    }
    join_with(&titled, &sep)
}

/// Converts a slug to title case: `"high-speed-pla"` becomes
/// `"High Speed PLA"`.
pub fn titlecase_slug(slug: &str) -> (r: String)
    ensures
        r@ == titlecase(slug@),
{
    let v = chars_of(slug);
    let t = titlecase_chars(&v);
    string_of(&t)
}

/// Material and name that a filament slug stands for: with two or more
/// `-`-separated parts, the first part upper-cased and the title of the
/// rest; otherwise the whole slug upper-cased and its title.
pub open spec fn slug_material_name(slug: Seq<char>) -> (Seq<char>, Seq<char>) {
    let parts = split_on(slug, '-');
    if parts.len() >= 2 {
        (uppercase_of(parts[0]), titlecase(join(parts.drop_first(), seq!['-'])))
    } else {
        (uppercase_of(slug), titlecase(slug))
    }
}

/// Parses material and name from a filament slug:
/// `"pla-high-speed-pla"` gives `("PLA", "High Speed PLA")`.
pub fn parse_filament_slug_clean(slug: &str) -> (r: (String, String))
    ensures
        (r.0@, r.1@) == slug_material_name(slug@),
{
    let v = chars_of(slug);
    let parts = split_on_char(&v, '-');
    let ghost ps = parts@.map_values(|w: Vec<char>| w@);
    if parts.len() >= 2 {
        let material = uppercase(&parts[0]);
        let mut rest: Vec<Vec<char>> = Vec::new();
        let mut i: usize = 1;
        while i < parts.len()
            invariant
                1 <= i <= parts.len(),
                ps == parts@.map_values(|w: Vec<char>| w@),
                rest@.map_values(|w: Vec<char>| w@) == ps.subrange(1, i as int),
            decreases parts.len() - i,
        {
            let ghost before = rest@.map_values(|w: Vec<char>| w@);
            rest.push(copy_part(&parts[i]));
            proof {
                assert(rest@.map_values(|w: Vec<char>| w@) == before.push(ps[i as int]));
                assert(ps.subrange(1, i + 1) == ps.subrange(1, i as int).push(ps[i as int]));
            }
            i = i + 1;
        }
        proof {
            assert(ps.subrange(1, parts.len() as int) == ps.drop_first());
        }
        let dash = vec!['-'];
        proof {
            assert(dash@ == seq!['-']);
        }
        let joined = join_with(&rest, &dash);
        let name = titlecase_chars(&joined);
        (string_of(&material), string_of(&name))
    } else {
        let material = uppercase(&v);
        let name = titlecase_chars(&v);
        (string_of(&material), string_of(&name))
    }
}

fn copy_part(w: &Vec<char>) -> (r: Vec<char>)
    ensures
        r@ == w@,
{
    let mut r: Vec<char> = Vec::new();
    push_all(&mut r, w);
    r
}

/// The catalog's brand links.
pub const BRAND_LINK_SELECTOR: &'static str = "a[href^='/data-sheets/']";

/// The refusal of a selector that `scraper` does not accept.
pub const INVALID_SELECTOR: &'static str = "Invalid selector";

/// The brands listed on the data-sheet index: for each link under
/// `/data-sheets/` whose rest is one non-empty path segment not seen
/// before, the slug's title and the slug, in link order.
pub open spec fn brand_list(hrefs: Seq<Option<Seq<char>>>) -> Seq<(Seq<char>, Seq<char>)>
    decreases hrefs.len(),
{
    if hrefs.len() == 0 {
        Seq::empty()
    } else {
        let prev = brand_list(hrefs.drop_last());
        match hrefs.last() {
            Some(h) => if starts_with_seq(h, "/data-sheets/"@) {
                let slug = h.skip(13);
                if slug.len() > 0 && !slug.contains('/') && !(exists|j: int|
                    0 <= j < prev.len() && prev[j].1 == slug) {
                    prev.push((titlecase(slug), slug))
                } else {
                    prev
                }
            } else {
                prev
            },
            None => prev,
        }
    }
}

fn has_slug(brands: &Vec<(String, String)>, slug: &Vec<char>) -> (b: bool)
    ensures
        b == exists|j: int| 0 <= j < brands@.len() && brands@[j].1@ == slug@,
{
    let mut i: usize = 0;
    while i < brands.len()
        invariant
            i <= brands.len(),
            forall|j: int| 0 <= j < i ==> brands@[j].1@ != slug@,
        decreases brands.len() - i,
    {
        if chars_eq(&chars_of(brands[i].1.as_str()), slug) {
            return true;
        }
        i = i + 1;
    }
    false
}

/// Parses the brand list from the data-sheet index page.
pub fn parse_brand_list(html: &str) -> (r: Result<Vec<(String, String)>, String>)
    ensures
        match hrefs_of(html@, BRAND_LINK_SELECTOR@) {
            Some(hs) => r matches Ok(v) && v@.map_values(|b: (String, String)| (b.0@, b.1@))
                == brand_list(hs),
            None => r matches Err(e) && e@ == INVALID_SELECTOR@,
        },
{
    let hrefs = match selected_hrefs(html, BRAND_LINK_SELECTOR) {
        Some(h) => h,
        None => {
            return Err(INVALID_SELECTOR.to_string());
        },
    };
    let ghost hv = opt_strings_view(hrefs@);
    let prefix = chars_of("/data-sheets/");
    proof {
        reveal_strlit("/data-sheets/");
        assert(prefix@.len() == 13);
    }
    let mut brands: Vec<(String, String)> = Vec::new();
    let mut i: usize = 0;
    while i < hrefs.len()
        invariant
            i <= hrefs.len(),
            hv == opt_strings_view(hrefs@),
            prefix@ == "/data-sheets/"@,
            prefix@.len() == 13,
            brands@.map_values(|b: (String, String)| (b.0@, b.1@)) == brand_list(hv.take(i as int)),
        decreases hrefs.len() - i,
    {
        proof {
            assert(hv.take(i + 1).drop_last() == hv.take(i as int));
            assert(hv.take(i + 1).last() == hv[i as int]);
        }
        let ghost bv = brands@.map_values(|b: (String, String)| (b.0@, b.1@));
        match &hrefs[i] {
            Some(h) => {
                let hc = chars_of(h.as_str());
                if crate::text::starts_with(&hc, &prefix) {
                    let n = hc.len();
                    let slug = crate::text::sub_chars(&hc, 13, n);
                    assert(slug@ == hc@.skip(13));
                    if slug.len() > 0 && !crate::text::contains_char(&slug, '/') {
                        let seen = has_slug(&brands, &slug);
                        proof {
                            if seen {
                                let j = choose|j: int| 0 <= j < brands@.len() && brands@[j].1@ == slug@;
                                assert(bv[j].1 == slug@);
                            } else {
                                assert forall|j: int| 0 <= j < bv.len() implies bv[j].1 != slug@ by {
                                    assert(bv[j].1 == brands@[j].1@);
                                }
                            }
                        }
                        if !seen {
                            let title = titlecase_chars(&slug);
                            let entry = (string_of(&title), string_of(&slug));
                            brands.push(entry);
                            assert(brands@.map_values(|b: (String, String)| (b.0@, b.1@)) == bv.push(
                                (titlecase(slug@), slug@),
                            ));
                        }
                    }
                }
            },
            None => {},
        }
        i = i + 1;
    }
    assert(hv.take(hrefs.len() as int) == hv);
    Ok(brands)
}

/// Abstract view of a catalog entry: brand, name, material, slug, URL.
pub open spec fn entry_view(e: CatalogEntry) -> (Seq<char>, Seq<char>, Seq<char>, Seq<char>, Seq<char>) {
    (e.brand@, e.name@, e.material@, e.url_slug@, e.full_url@)
}

/// The path prefix of a brand's filament pages.
pub open spec fn filament_prefix(brand_slug: Seq<char>) -> Seq<char> {
    "/data-sheets/"@ + brand_slug + seq!['/']
}

/// The selector of a brand's filament links.
pub open spec fn filament_selector(brand_slug: Seq<char>) -> Seq<char> {
    "a[href^='"@ + filament_prefix(brand_slug) + "']"@
}

/// The filaments listed on a brand page: for each link under the brand's
/// prefix with a non-empty slug not seen before, an entry with the brand's
/// title, the material and name read from the slug, the slug and the
/// absolute URL.
pub open spec fn brand_filaments(hrefs: Seq<Option<Seq<char>>>, brand_slug: Seq<char>) -> Seq<
    (Seq<char>, Seq<char>, Seq<char>, Seq<char>, Seq<char>),
>
    decreases hrefs.len(),
{
    if hrefs.len() == 0 {
        Seq::empty()
    } else {
        let prev = brand_filaments(hrefs.drop_last(), brand_slug);
        let prefix = filament_prefix(brand_slug);
        match hrefs.last() {
            Some(h) => if starts_with_seq(h, prefix) {
                let slug = h.skip(prefix.len() as int);
                if slug.len() > 0 && !(exists|j: int| 0 <= j < prev.len() && prev[j].3 == slug) {
                    let (material, name) = slug_material_name(slug);
                    prev.push(
                        (
                            titlecase(brand_slug),
                            name,
                            material,
                            slug,
                            "https://www.spoolscout.com"@ + h,
                        ),
                    )
                } else {
                    prev
                }
            } else {
                prev
            },
            None => prev,
        }
    }
}

fn has_entry_slug(entries: &Vec<CatalogEntry>, slug: &Vec<char>) -> (b: bool)
    ensures
        b == exists|j: int| 0 <= j < entries@.len() && entries@[j].url_slug@ == slug@,
{
    let mut i: usize = 0;
    while i < entries.len()
        invariant
            i <= entries.len(),
            forall|j: int| 0 <= j < i ==> entries@[j].url_slug@ != slug@,
        decreases entries.len() - i,
    {
        if chars_eq(&chars_of(entries[i].url_slug.as_str()), slug) {
            return true;
        }
        i = i + 1;
    }
    false
}

/// Parses the filaments of one brand from its page.
pub fn parse_brand_filaments(html: &str, brand_name: &str, brand_slug: &str) -> (r: Result<
    Vec<CatalogEntry>,
    String,
>)
    ensures
        match hrefs_of(html@, filament_selector(brand_slug@)) {
            Some(hs) => r matches Ok(v) && v@.map_values(|e: CatalogEntry| entry_view(e))
                == brand_filaments(hs, brand_slug@),
            None => r matches Err(e) && e@ == INVALID_SELECTOR@,
        },
{
    let mut prefix: Vec<char> = Vec::new();
    crate::text::push_str(&mut prefix, "/data-sheets/");
    crate::text::push_str(&mut prefix, brand_slug);
    prefix.push('/');
    let mut selector: Vec<char> = Vec::new();
    crate::text::push_str(&mut selector, "a[href^='");
    push_all(&mut selector, &prefix);
    crate::text::push_str(&mut selector, "']");
    assert(prefix@ == filament_prefix(brand_slug@));
    assert(selector@ == filament_selector(brand_slug@));
    let hrefs = match selected_hrefs(html, string_of(&selector).as_str()) {
        Some(h) => h,
        None => {
            return Err(INVALID_SELECTOR.to_string());
        },
    };
    let ghost hv = opt_strings_view(hrefs@);
    let clean_brand = titlecase_slug(brand_slug);
    let site = chars_of("https://www.spoolscout.com");
    let mut entries: Vec<CatalogEntry> = Vec::new();
    let mut i: usize = 0;
    while i < hrefs.len()
        invariant
            i <= hrefs.len(),
            hv == opt_strings_view(hrefs@),
            prefix@ == filament_prefix(brand_slug@),
            clean_brand@ == titlecase(brand_slug@),
            site@ == "https://www.spoolscout.com"@,
            entries@.map_values(|e: CatalogEntry| entry_view(e)) == brand_filaments(
                hv.take(i as int),
                brand_slug@,
            ),
        decreases hrefs.len() - i,
    {
        proof {
            assert(hv.take(i + 1).drop_last() == hv.take(i as int));
            assert(hv.take(i + 1).last() == hv[i as int]);
        }
        let ghost ev = entries@.map_values(|e: CatalogEntry| entry_view(e));
        match &hrefs[i] {
            Some(h) => {
                let hc = chars_of(h.as_str());
                if crate::text::starts_with(&hc, &prefix) {
                    let n = hc.len();
                    let slug = crate::text::sub_chars(&hc, prefix.len(), n);
                    assert(slug@ == hc@.skip(prefix@.len() as int));
                    if slug.len() > 0 {
                        let seen = has_entry_slug(&entries, &slug);
                        proof {
                            if seen {
                                let j = choose|j: int|
                                    0 <= j < entries@.len() && entries@[j].url_slug@ == slug@;
                                assert(ev[j].3 == slug@);
                            } else {
                                assert forall|j: int| 0 <= j < ev.len() implies ev[j].3 != slug@ by {
                                    assert(ev[j].3 == entries@[j].url_slug@);
                                }
                            }
                        }
                        if !seen {
                            let slug_s = string_of(&slug);
                            let (material, name) = parse_filament_slug_clean(slug_s.as_str());
                            let mut url = copy_part(&site);
                            push_all(&mut url, &hc);
                            let entry = CatalogEntry {
                                brand: string_of(&titlecase_chars(&chars_of(brand_slug))),
                                name,
                                material,
                                url_slug: slug_s,
                                full_url: string_of(&url),
                            };
                            entries.push(entry);
                            assert(entries@.map_values(|e: CatalogEntry| entry_view(e)) == ev.push(
                                entry_view(entries@[ev.len() as int]),
                            ));
                        }
                    }
                }
            },
            None => {},
        }
        i = i + 1;
    }
    assert(hv.take(hrefs.len() as int) == hv);
    Ok(entries)
}

// ---------------------------------------------------------------------------
// Matching a query against catalog entries
// ---------------------------------------------------------------------------

/// The words of a catalog query: the query trimmed, lower-cased and split
/// at whitespace.
pub open spec fn query_words_of(query: Seq<char>) -> Seq<Seq<char>> {
    words(lowercase_of(trim(query)))
}

/// The words of a catalog query (see `query_words_of`).
pub fn query_words(query: &str) -> (r: Vec<String>)
    ensures
        r@.map_values(|s: String| s@) == query_words_of(query@),
{
    let l = lowercase(&trim_chars(&chars_of(query)));
    let ws = split_whitespace(&l);
    let ghost wv = ws@.map_values(|w: Vec<char>| w@);
    let mut r: Vec<String> = Vec::new();
    let mut i: usize = 0;
    while i < ws.len()
        invariant
            i <= ws.len(),
            wv == ws@.map_values(|w: Vec<char>| w@),
            r@.map_values(|s: String| s@) == wv.take(i as int),
        decreases ws.len() - i,
    {
        let ghost before = r@.map_values(|s: String| s@);
        r.push(string_of(&ws[i]));
        proof {
            assert(r@.map_values(|s: String| s@) =~= before.push(ws@[i as int]@));
            assert(wv.take(i + 1) =~= wv.take(i as int).push(wv[i as int]));
        }
        i = i + 1;
    }
    proof {
        assert(wv.take(ws.len() as int) =~= wv);
    }
    r
}

/// A text without its whitespace.
pub open spec fn no_space(s: Seq<char>) -> Seq<char>
    decreases s.len(),
{
    if s.len() == 0 {
        s
    } else if is_ws(s.last()) {
        no_space(s.drop_last())
    } else {
        no_space(s.drop_last()).push(s.last())
    }
}

fn no_space_chars(v: &Vec<char>) -> (r: Vec<char>)
    ensures
        r@ == no_space(v@),
{
    let mut r: Vec<char> = Vec::new();
    let mut i: usize = 0;
    while i < v.len()
        invariant
            i <= v.len(),
            r@ == no_space(v@.take(i as int)),
        decreases v.len() - i,
    {
        proof {
            assert(v@.take(i + 1).drop_last() =~= v@.take(i as int));
            assert(v@.take(i + 1).last() == v@[i as int]);
        }
        if !is_whitespace(v[i]) {
            r.push(v[i]);
        }
        i = i + 1;
    }
    proof {
        assert(v@.take(v.len() as int) =~= v@);
    }
    r
}

/// How well one query word matches an entry's words: 10 when a word is
/// it, 8 when a word starts with it, 5 when a word holds it, 4 when the
/// text without whitespace holds it, else 0.
pub open spec fn word_tier(q: Seq<char>, sws: Seq<Seq<char>>, nospace: Seq<char>) -> u8 {
    if exists|i: int| 0 <= i < sws.len() && sws[i] == q {
        10
    } else if exists|i: int| 0 <= i < sws.len() && starts_with_seq(sws[i], q) {
        8
    } else if exists|i: int| 0 <= i < sws.len() && contains_seq(sws[i], q) {
        5
    } else if contains_seq(nospace, q) {
        4
    } else {
        0
    }
}

/// The tier of each query word against a search text.
pub open spec fn match_tiers_of(qws: Seq<Seq<char>>, text: Seq<char>) -> Seq<u8> {
    qws.map_values(|q: Seq<char>| word_tier(q, words(text), no_space(text)))
}

/// The first word of the text starts with the first query word.
pub open spec fn first_word_bonus_of(qws: Seq<Seq<char>>, text: Seq<char>) -> bool {
    qws.len() > 0 && words(text).len() > 0 && starts_with_seq(words(text)[0], qws[0])
}

/// The text without whitespace starts with the query words joined.
pub open spec fn prefix_bonus_of(qws: Seq<Seq<char>>, text: Seq<char>) -> bool {
    starts_with_seq(no_space(text), join(qws, Seq::empty()))
}

/// What a match score is made of: each query word's tier and the two
/// bonuses.
pub struct MatchParts {
    pub tiers: Vec<u8>,
    pub first_word_bonus: bool,
    pub prefix_bonus: bool,
}

fn tier_of(q: &Vec<char>, sws: &Vec<Vec<char>>, nospace: &Vec<char>) -> (t: u8)
    ensures
        t == word_tier(q@, sws@.map_values(|w: Vec<char>| w@), nospace@),
{
    let ghost sv = sws@.map_values(|w: Vec<char>| w@);
    let mut exact = false;
    let mut starts = false;
    let mut within = false;
    let mut i: usize = 0;
    while i < sws.len()
        invariant
            i <= sws.len(),
            sv == sws@.map_values(|w: Vec<char>| w@),
            exact == exists|j: int| 0 <= j < i && sv[j] == q@,
            starts == exists|j: int| 0 <= j < i && starts_with_seq(sv[j], q@),
            within == exists|j: int| 0 <= j < i && contains_seq(sv[j], q@),
        decreases sws.len() - i,
    {
        let w = &sws[i];
        assert(sv[i as int] == w@);
        if chars_eq(w, q) {
            exact = true;
        }
        if starts_with(w, q) {
            starts = true;
        }
        if contains(w, q) {
            within = true;
        }
        i = i + 1;
    }
    if exact {
        10
    } else if starts {
        8
    } else if within {
        5
    } else if contains(nospace, q) {
        4
    } else {
        0
    }
}

/// The parts of the match score of a catalog entry's search text for the
/// query words (see `match_tiers_of`, `first_word_bonus_of`,
/// `prefix_bonus_of`).
pub fn match_parts(query_words: &Vec<String>, search_text: &str) -> (r: MatchParts)
    ensures
        r.tiers@ == match_tiers_of(query_words@.map_values(|s: String| s@), search_text@),
        r.first_word_bonus == first_word_bonus_of(query_words@.map_values(|s: String| s@), search_text@),
        r.prefix_bonus == prefix_bonus_of(query_words@.map_values(|s: String| s@), search_text@),
{
    let ghost qv = query_words@.map_values(|s: String| s@);
    let text = chars_of(search_text);
    let sws = split_whitespace(&text);
    let nospace = no_space_chars(&text);
    let mut tiers: Vec<u8> = Vec::new();
    let mut qs: Vec<Vec<char>> = Vec::new();
    let mut i: usize = 0;
    while i < query_words.len()
        invariant
            i <= query_words.len(),
            qv == query_words@.map_values(|s: String| s@),
            tiers@ == match_tiers_of(qv.take(i as int), search_text@),
            qs@.map_values(|w: Vec<char>| w@) == qv.take(i as int),
            sws@.map_values(|w: Vec<char>| w@) == words(text@),
            nospace@ == no_space(text@),
            text@ == search_text@,
        decreases query_words.len() - i,
    {
        let q = chars_of(query_words[i].as_str());
        let t = tier_of(&q, &sws, &nospace);
        let ghost before = qs@.map_values(|w: Vec<char>| w@);
        tiers.push(t);
        qs.push(q);
        proof {
            assert(qv.take(i + 1) =~= qv.take(i as int).push(qv[i as int]));
            assert(tiers@ =~= match_tiers_of(qv.take(i + 1), search_text@));
            assert(qs@.map_values(|w: Vec<char>| w@) =~= before.push(qv[i as int]));
        }
        i = i + 1;
    }
    proof {
        assert(qv.take(query_words.len() as int) =~= qv);
    }
    let first_word_bonus = if qs.len() > 0 && sws.len() > 0 {
        proof {
            assert(qs@[0]@ == qv[0]);
            assert(sws@[0]@ == words(search_text@)[0]);
        }
        starts_with(&sws[0], &qs[0])
    } else {
        false
    };
    let sep: Vec<char> = Vec::new();
    assert(sep@ =~= Seq::<char>::empty());
    let joined = join_with(&qs, &sep);
    let prefix_bonus = starts_with(&nospace, &joined);
    MatchParts { tiers, first_word_bonus, prefix_bonus }
}

} // verus!
