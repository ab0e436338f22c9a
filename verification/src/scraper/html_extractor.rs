//! Extraction of filament printing parameters from a manufacturer page,
//! without any AI or network call. Sources are tried in priority order:
//!
//! 1. JSON-LD structured data (`<script type="application/ld+json">`);
//! 2. HTML table rows (spec sheets);
//! 3. definition lists (`<dt>`/`<dd>` pairs);
//! 4. regular expressions over the page text.
//!
//! Confidence (in thousandths) grows with what is found and is capped for
//! pure HTML extraction.

use vstd::prelude::*;
use crate::fixed::{parse_milli, parse_milli_spec, parse_u16, parse_u16_spec};
use crate::scraper::types::{FilamentSpecs, MaterialType, material_tag};
use crate::text::{
    chars_eq, chars_of, contains_seq, contains_str, ends_with, ends_with_seq, eq_str, is_whitespace,
    is_ws, lowercase, lowercase_of, string_of, trim, trim_chars, words,
    split_whitespace,
};

verus! {

broadcast use vstd::string::group_string_axioms;

// ---------------------------------------------------------------------------
// What the outside crates compute
// ---------------------------------------------------------------------------

/// The text nodes of an HTML document, in document order, as `scraper`
/// parses it.
pub uninterp spec fn text_nodes_of(html: Seq<char>) -> Seq<Seq<char>>;

/// The texts (all text nodes, concatenated) of the elements of an HTML
/// document that a CSS selector matches, in document order; `None` when
/// `scraper` does not accept the selector.
pub uninterp spec fn selected_texts_of(html: Seq<char>, selector: Seq<char>) -> Option<Seq<Seq<char>>>;

/// For each element that the `outer` selector matches, the texts of its
/// descendants that the `inner` selector matches; `None` when `scraper`
/// does not accept a selector.
pub uninterp spec fn nested_texts_of(html: Seq<char>, outer: Seq<char>, inner: Seq<char>) -> Option<
    Seq<Seq<Seq<char>>>,
>;

/// The groups of the first match of a regular expression in a text (group 0
/// is the whole match; a group that did not take part is `None`); `None`
/// when there is no match or `regex` does not accept the pattern.
pub uninterp spec fn captures_of(pattern: Seq<char>, text: Seq<char>) -> Option<Seq<Option<Seq<char>>>>;

/// What `serde_json` reads from a text: the JSON value, or the text of the
/// error it reports when the text is not JSON.
pub uninterp spec fn json_parse_of(text: Seq<char>) -> Result<JsonValue, Seq<char>>;

/// The JSON value of a text, `None` when the text is not JSON.
pub open spec fn json_of(text: Seq<char>) -> Option<JsonValue> {
    match json_parse_of(text) {
        Ok(v) => Some(v),
        Err(_) => None,
    }
}

/// View of a sequence of strings.
pub open spec fn strings_view(v: Seq<String>) -> Seq<Seq<char>> {
    v.map_values(|s: String| s@)
}

/// View of a sequence of optional strings.
pub open spec fn opt_strings_view(v: Seq<Option<String>>) -> Seq<Option<Seq<char>>> {
    v.map_values(|o: Option<String>| crate::text::opt_view(o))
}

/// `scraper::Html::parse_document` and the root element's text nodes.
#[verifier::external_body]
fn page_text_nodes(html: &str) -> (r: Vec<String>)
    ensures
        strings_view(r@) == text_nodes_of(html@),
{
    scraper::Html::parse_document(html).root_element().text().map(|t| t.to_string()).collect()
}

/// `scraper::Selector::parse`, `scraper::Html::parse_document` and
/// `select`: the text of every matched element.
#[verifier::external_body]
fn selected_texts(html: &str, selector: &str) -> (r: Option<Vec<String>>)
    ensures
        match r {
            Some(v) => selected_texts_of(html@, selector@) == Some(strings_view(v@)),
            None => selected_texts_of(html@, selector@) is None,
        },
{
    let sel = scraper::Selector::parse(selector).ok()?;
    let doc = scraper::Html::parse_document(html);
    Some(doc.select(&sel).map(|e| e.text().collect::<String>()).collect())
}

/// `scraper` selection inside selection: for each element that `outer`
/// matches, the texts of the elements inside it that `inner` matches.
#[verifier::external_body]
fn nested_texts(html: &str, outer: &str, inner: &str) -> (r: Option<Vec<Vec<String>>>)
    ensures
        match r {
            Some(v) => nested_texts_of(html@, outer@, inner@) == Some(
                v@.map_values(|row: Vec<String>| strings_view(row@)),
            ),
            None => nested_texts_of(html@, outer@, inner@) is None,
        },
{
    let outer_sel = scraper::Selector::parse(outer).ok()?;
    let inner_sel = scraper::Selector::parse(inner).ok()?;
    let doc = scraper::Html::parse_document(html);
    Some(doc.select(&outer_sel).map(|row| row.select(&inner_sel).map(|c| c.text().collect::<String>()).collect()).collect())
}

/// `regex::Regex::new` and `captures`: the groups of the first match.
#[verifier::external_body]
fn first_captures(pattern: &str, text: &str) -> (r: Option<Vec<Option<String>>>)
    ensures
        match r {
            Some(v) => captures_of(pattern@, text@) == Some(opt_strings_view(v@)),
            None => captures_of(pattern@, text@) is None,
        },
{
    let re = regex::Regex::new(pattern).ok()?;
    let caps = re.captures(text)?;
    Some(caps.iter().map(|m| m.map(|m| m.as_str().to_string())).collect())
}

/// The `href` attribute of each element of an HTML document that a CSS
/// selector matches, in document order (`None` for an element without
/// one); `None` when `scraper` does not accept the selector.
pub uninterp spec fn hrefs_of(html: Seq<char>, selector: Seq<char>) -> Option<Seq<Option<Seq<char>>>>;

/// `scraper` selection: the `href` attribute of every matched element.
#[verifier::external_body]
pub(crate) fn selected_hrefs(html: &str, selector: &str) -> (r: Option<Vec<Option<String>>>)
    ensures
        match r {
            Some(v) => hrefs_of(html@, selector@) == Some(opt_strings_view(v@)),
            None => hrefs_of(html@, selector@) is None,
        },
{
    let sel = scraper::Selector::parse(selector).ok()?;
    let doc = scraper::Html::parse_document(html);
    Some(doc.select(&sel).map(|e| e.value().attr("href").map(|h| h.to_string())).collect())
}

// ---------------------------------------------------------------------------
// JSON values
// ---------------------------------------------------------------------------

/// A JSON value as the extractor reads it.
#[derive(Debug)]
pub enum JsonValue {
    Null,
    Bool(bool),
    /// A number: its value when it is an unsigned integer that fits in 64
    /// bits, and its text.
    Number(Option<u64>, String),
    Str(String),
    Array(Vec<JsonValue>),
    /// An object's members, each key once, in the order `serde_json` keeps
    /// them.
    Object(Vec<(String, JsonValue)>),
}

#[verifier::external_type_specification]
#[verifier::external_body]
pub struct ExJsonValue(serde_json::Value);

/// Converts a `serde_json::Value` into a `JsonValue`, variant by variant.
#[verifier::external_body]
fn from_serde(v: serde_json::Value) -> JsonValue {
    match v {
        serde_json::Value::Null => JsonValue::Null,
        serde_json::Value::Bool(b) => JsonValue::Bool(b),
        serde_json::Value::Number(n) => JsonValue::Number(n.as_u64(), n.to_string()),
        serde_json::Value::String(s) => JsonValue::Str(s),
        serde_json::Value::Array(a) => JsonValue::Array(a.into_iter().map(from_serde).collect()),
        serde_json::Value::Object(o) => JsonValue::Object(o.into_iter().map(|(k, x)| (k, from_serde(x))).collect()),
    }
}

/// Converts a `JsonValue` into a `serde_json::Value`, variant by variant
/// (a number by its text; a number whose text `serde_json::Number` does not
/// parse becomes `Null`). Nothing is stated of the result.
#[verifier::external_body]
fn to_serde(v: &JsonValue) -> serde_json::Value {
    match v {
        JsonValue::Null => serde_json::Value::Null,
        JsonValue::Bool(b) => serde_json::Value::Bool(*b),
        JsonValue::Number(_, t) => match t.parse::<serde_json::Number>() {
            Ok(n) => serde_json::Value::Number(n),
            Err(_) => serde_json::Value::Null,
        },
        JsonValue::Str(s) => serde_json::Value::String(s.clone()),
        JsonValue::Array(a) => serde_json::Value::Array(a.iter().map(to_serde).collect()),
        JsonValue::Object(o) => serde_json::Value::Object(o.iter().map(|(k, x)| (k.clone(), to_serde(x))).collect()),
    }
}

/// What `serde_json::to_string_pretty` writes for a JSON value, or the
/// error's text.
pub uninterp spec fn json_pretty_of(v: JsonValue) -> Result<Seq<char>, Seq<char>>;

/// `serde_json::to_string_pretty` of the value; the error as its text. The
/// contract names the result (`json_pretty_of`) and says no more of it.
#[verifier::external_body]
pub(crate) fn json_pretty(v: &JsonValue) -> (r: Result<String, String>)
    ensures
        match r {
            Ok(t) => json_pretty_of(*v) == Ok::<Seq<char>, Seq<char>>(t@),
            Err(m) => json_pretty_of(*v) == Err::<Seq<char>, Seq<char>>(m@),
        },
{
    match serde_json::to_string_pretty(&to_serde(v)) {
        Ok(t) => Ok(t),
        Err(e) => Err(e.to_string()),
    }
}

/// The compact JSON text `serde_json` writes for a value (its `Display`).
pub uninterp spec fn json_text_of(v: JsonValue) -> Seq<char>;

/// `serde_json::Value`'s `Display` (`to_string`) of the value: its compact
/// JSON text. The contract names the result (`json_text_of`) and says no
/// more of it.
#[verifier::external_body]
pub(crate) fn json_text(v: &JsonValue) -> (r: String)
    ensures
        r@ == json_text_of(*v),
{
    to_serde(v).to_string()
}

/// `serde_json::from_str::<serde_json::Value>`: the JSON value of a text,
/// or the error's text.
#[verifier::external_body]
pub(crate) fn read_json(text: &str) -> (r: Result<JsonValue, String>)
    ensures
        match r {
            Ok(v) => json_parse_of(text@) == Ok::<JsonValue, Seq<char>>(v),
            Err(m) => json_parse_of(text@) == Err::<JsonValue, Seq<char>>(m@),
        },
{
    match serde_json::from_str::<serde_json::Value>(text) {
        Ok(v) => Ok(from_serde(v)),
        Err(e) => Err(e.to_string()),
    }
}

/// The JSON value of a text, `None` when the text is not JSON.
fn parse_json(text: &str) -> (r: Option<JsonValue>)
    ensures
        r == json_of(text@),
{
    match read_json(text) {
        Ok(v) => Some(v),
        Err(_) => None,
    }
}

// ---------------------------------------------------------------------------
// What has been found so far
// ---------------------------------------------------------------------------

/// The fields the extractor fills in, with the confidence gathered so far
/// (thousandths).
#[derive(Debug)]
pub struct Found {
    pub name: String,
    pub material: String,
    pub nozzle_min: Option<u16>,
    pub nozzle_max: Option<u16>,
    pub nozzle: Option<u16>,
    pub bed_min: Option<u16>,
    pub bed_max: Option<u16>,
    pub hot_plate: Option<u16>,
    pub textured_plate: Option<u16>,
    pub diameter: Option<i64>,
    pub density: Option<i64>,
    pub confidence: i64,
}

/// Abstract view of `Found`.
pub ghost struct Scan {
    pub name: Seq<char>,
    pub material: Seq<char>,
    pub nozzle_min: Option<u16>,
    pub nozzle_max: Option<u16>,
    pub nozzle: Option<u16>,
    pub bed_min: Option<u16>,
    pub bed_max: Option<u16>,
    pub hot_plate: Option<u16>,
    pub textured_plate: Option<u16>,
    pub diameter: Option<i64>,
    pub density: Option<i64>,
    pub confidence: i64,
}

impl View for Found {
    type V = Scan;

    open spec fn view(&self) -> Scan {
        Scan {
            name: self.name@,
            material: self.material@,
            nozzle_min: self.nozzle_min,
            nozzle_max: self.nozzle_max,
            nozzle: self.nozzle,
            bed_min: self.bed_min,
            bed_max: self.bed_max,
            hot_plate: self.hot_plate,
            textured_plate: self.textured_plate,
            diameter: self.diameter,
            density: self.density,
            confidence: self.confidence,
        }
    }
}

/// Confidence after adding `k` thousandths (saturating).
pub open spec fn bump(c: i64, k: i64) -> i64 {
    if c + k > i64::MAX {
        i64::MAX
    } else {
        (c + k) as i64
    }
}

fn bump_exec(c: i64, k: i64) -> (r: i64)
    requires
        0 <= k,
    ensures
        r == bump(c, k),
{
    if c > i64::MAX - k {
        i64::MAX
    } else {
        c + k
    }
}

/// The scan with a nozzle range found: its midpoint is the nozzle temperature.
pub open spec fn with_nozzle(st: Scan, lo: u16, hi: u16, k: i64) -> Scan {
    Scan {
        nozzle_min: Some(lo),
        nozzle_max: Some(hi),
        nozzle: Some(((lo + hi) / 2) as u16),
        confidence: bump(st.confidence, k),
        ..st
    }
}

/// The scan with a bed range found: its midpoint goes to the hot and the
/// textured plate.
pub open spec fn with_bed(st: Scan, lo: u16, hi: u16, k: i64) -> Scan {
    let mid = ((lo + hi) / 2) as u16;
    Scan {
        bed_min: Some(lo),
        bed_max: Some(hi),
        hot_plate: Some(mid),
        textured_plate: Some(mid),
        confidence: bump(st.confidence, k),
        ..st
    }
}

fn set_nozzle(f: &mut Found, lo: u16, hi: u16, k: i64)
    requires
        0 <= k,
    ensures
        final(f)@ == with_nozzle(old(f)@, lo, hi, k),
{
    f.nozzle_min = Some(lo);
    f.nozzle_max = Some(hi);
    f.nozzle = Some(((lo as u32 + hi as u32) / 2) as u16);
    f.confidence = bump_exec(f.confidence, k);
}

fn set_bed(f: &mut Found, lo: u16, hi: u16, k: i64)
    requires
        0 <= k,
    ensures
        final(f)@ == with_bed(old(f)@, lo, hi, k),
{
    let mid = ((lo as u32 + hi as u32) / 2) as u16;
    f.bed_min = Some(lo);
    f.bed_max = Some(hi);
    f.hot_plate = Some(mid);
    f.textured_plate = Some(mid);
    f.confidence = bump_exec(f.confidence, k);
}

// ---------------------------------------------------------------------------
// Regular expressions
// ---------------------------------------------------------------------------

/// Nozzle range: "200-230°C", "200 ~ 230 °C", "200°C to 230°C".
pub const NOZZLE_RANGE_PATTERN: &'static str = r"(?i)(?:nozzle|print(?:ing)?|extrusion|hotend)[^\d]{0,30}?(\d{3})\s*[-–~to°]+\s*(\d{3})\s*°?\s*[Cc]";
/// Single nozzle temperature: "Nozzle: 210°C".
pub const NOZZLE_SINGLE_PATTERN: &'static str = r"(?i)(?:nozzle|print(?:ing)?|extrusion)[^\d]{0,20}?(\d{3})\s*°?\s*[Cc]";
/// Bed range: "Bed: 55-70°C", "Build Plate: 55–70 °C".
pub const BED_RANGE_PATTERN: &'static str = r"(?i)(?:bed|build\s*plate|heated\s*bed|platform)[^\d]{0,30}?(\d{2,3})\s*[-–~to°]+\s*(\d{2,3})\s*°?\s*[Cc]";
/// Single bed temperature.
pub const BED_SINGLE_PATTERN: &'static str = r"(?i)(?:bed|build\s*plate|heated\s*bed|platform)[^\d]{0,20}?(\d{2,3})\s*°?\s*[Cc]";
/// Density: "1.24 g/cm³" or "1.24 g/cm3".
pub const DENSITY_PATTERN: &'static str = r"(\d+\.\d+)\s*g/cm[³3]";
/// Diameter: "1.75 mm" near a diameter label.
pub const DIAMETER_PATTERN: &'static str = r"(?i)diam(?:eter)?[^\d]{0,10}?(\d\.\d+)\s*mm";
/// A temperature range inside a value: "200-230°C", "200 to 230 °C".
pub const TEMP_RANGE_PATTERN: &'static str = r"(\d{2,3})\s*[-–~to°]+\s*(\d{2,3})\s*°?\s*[Cc]?";
/// A single temperature inside a value: "210°C".
pub const TEMP_SINGLE_PATTERN: &'static str = r"(\d{2,3})\s*°?\s*[Cc]";

/// Group `i` of a match (`None` when absent).
pub open spec fn group(c: Seq<Option<Seq<char>>>, i: int) -> Option<Seq<char>> {
    if 0 <= i < c.len() {
        c[i]
    } else {
        None
    }
}

/// Group `i` read as a `u16`: `None` when absent, `Some(None)` when it does
/// not parse.
pub open spec fn group_u16(c: Seq<Option<Seq<char>>>, i: int) -> Option<Option<u16>> {
    match group(c, i) {
        Some(t) => Some(parse_u16_spec(t)),
        None => None,
    }
}

/// The two numbers of groups 1 and 2, low first; nothing when a group is
/// absent, does not parse or is zero.
pub open spec fn capture_range(c: Seq<Option<Seq<char>>>) -> Option<(u16, u16)> {
    match (group_u16(c, 1), group_u16(c, 2)) {
        (Some(Some(a)), Some(Some(b))) => if a == 0 || b == 0 {
            None
        } else if a <= b {
            Some((a, b))
        } else {
            Some((b, a))
        },
        _ => None,
    }
}

fn group_text(c: &Vec<Option<String>>, i: usize) -> (r: Option<Vec<char>>)
    ensures
        match r {
            Some(t) => group(opt_strings_view(c@), i as int) == Some(t@),
            None => group(opt_strings_view(c@), i as int) is None,
        },
{
    if i < c.len() {
        match &c[i] {
            Some(t) => Some(chars_of(t.as_str())),
            None => None,
        }
    } else {
        None
    }
}

fn group_number(c: &Vec<Option<String>>, i: usize) -> (r: Option<Option<u16>>)
    ensures
        r == group_u16(opt_strings_view(c@), i as int),
{
    match group_text(c, i) {
        Some(t) => Some(parse_u16(&t)),
        None => None,
    }
}

fn range_from_captures(c: &Vec<Option<String>>) -> (r: Option<(u16, u16)>)
    ensures
        r == capture_range(opt_strings_view(c@)),
{
    match (group_number(c, 1), group_number(c, 2)) {
        (Some(Some(a)), Some(Some(b))) => if a == 0 || b == 0 {
            None
        } else if a <= b {
            Some((a, b))
        } else {
            Some((b, a))
        },
        _ => None,
    }
}

/// A single temperature, read from a value: the single-temperature pattern's
/// group, within 20 to 400 degrees.
pub open spec fn single_temp(s: Seq<char>) -> Option<(u16, u16)> {
    match captures_of(TEMP_SINGLE_PATTERN@, s) {
        Some(c) => match group_u16(c, 1) {
            Some(Some(t)) => if 20 <= t && t <= 400 {
                Some((t, t))
            } else {
                None
            },
            _ => None,
        },
        None => None,
    }
}

/// The temperature range of a value such as "200-230°C" (low first), or a
/// single temperature as a range of one; a range must start at 20 or more
/// and end at 400 or less, else the single form is tried. A range match
/// whose numbers do not parse gives nothing.
pub open spec fn temp_range(s: Seq<char>) -> Option<(u16, u16)> {
    match captures_of(TEMP_RANGE_PATTERN@, s) {
        Some(c) => match (group_u16(c, 1), group_u16(c, 2)) {
            (Some(Some(a)), Some(Some(b))) => if a >= 20 && b <= 400 {
                if a <= b {
                    Some((a, b))
                } else {
                    Some((b, a))
                }
            } else {
                single_temp(s)
            },
            _ => None,
        },
        None => single_temp(s),
    }
}

fn parse_single_temp(s: &str) -> (r: Option<(u16, u16)>)
    ensures
        r == single_temp(s@),
{
    match first_captures(TEMP_SINGLE_PATTERN, s) {
        Some(c) => match group_number(&c, 1) {
            Some(Some(t)) => if 20 <= t && t <= 400 {
                Some((t, t))
            } else {
                None
            },
            _ => None,
        },
        None => None,
    }
}

/// Parses a temperature range from a value (see `temp_range`).
pub fn parse_temp_range(s: &str) -> (r: Option<(u16, u16)>)
    ensures
        r == temp_range(s@),
{
    match first_captures(TEMP_RANGE_PATTERN, s) {
        Some(c) => match (group_number(&c, 1), group_number(&c, 2)) {
            (Some(Some(a)), Some(Some(b))) => if a >= 20 && b <= 400 {
                if a <= b {
                    Some((a, b))
                } else {
                    Some((b, a))
                }
            } else {
                parse_single_temp(s)
            },
            _ => None,
        },
        None => parse_single_temp(s),
    }
}

/// `|a - b| < d` on thousandths.
pub open spec fn near(a: i64, b: int, d: int) -> bool {
    a - b < d && b - a < d
}

/// The nozzle part of the regular-expression pass: a range, else a single
/// temperature (taken as the middle of a 20-degree range).
pub open spec fn regex_nozzle(st: Scan, text: Seq<char>) -> Scan {
    let s1 = if st.nozzle_min is None {
        match captures_of(NOZZLE_RANGE_PATTERN@, text) {
            Some(c) => match capture_range(c) {
                Some((lo, hi)) => if lo >= 140 && hi <= 340 {
                    with_nozzle(st, lo, hi, 150)
                } else {
                    st
                },
                None => st,
            },
            None => st,
        }
    } else {
        st
    };
    if s1.nozzle_min is None {
        match captures_of(NOZZLE_SINGLE_PATTERN@, text) {
            Some(c) => match group_u16(c, 1) {
                Some(Some(t)) => if 140 <= t && t <= 340 {
                    Scan {
                        nozzle: Some(t),
                        nozzle_min: Some((t - 10) as u16),
                        nozzle_max: Some((t + 10) as u16),
                        confidence: bump(s1.confidence, 100),
                        ..s1
                    }
                } else {
                    s1
                },
                _ => s1,
            },
            None => s1,
        }
    } else {
        s1
    }
}

/// The bed part of the regular-expression pass: a range, else a single
/// temperature (taken as the middle of a 10-degree range).
pub open spec fn regex_bed(st: Scan, text: Seq<char>) -> Scan {
    let s3 = if st.bed_min is None {
        match captures_of(BED_RANGE_PATTERN@, text) {
            Some(c) => match capture_range(c) {
                Some((lo, hi)) => if lo <= 130 && hi <= 130 {
                    with_bed(st, lo, hi, 80)
                } else {
                    st
                },
                None => st,
            },
            None => st,
        }
    } else {
        st
    };
    if s3.bed_min is None {
        match captures_of(BED_SINGLE_PATTERN@, text) {
            Some(c) => match group_u16(c, 1) {
                Some(Some(t)) => if t <= 130 {
                    Scan {
                        hot_plate: Some(t),
                        textured_plate: Some(t),
                        bed_min: Some(if t >= 5 { (t - 5) as u16 } else { 0u16 }),
                        bed_max: Some((t + 5) as u16),
                        confidence: bump(s3.confidence, 50),
                        ..s3
                    }
                } else {
                    s3
                },
                _ => s3,
            },
            None => s3,
        }
    } else {
        s3
    }
}

/// The material part of the regular-expression pass: density (0.5 to 3
/// g/cm³, exclusive) and diameter (within 0.1 mm of 1.75 or 2.85, else
/// 1.75 by default); then a little confidence when nozzle and bed are known.
pub open spec fn regex_material(s4: Scan, text: Seq<char>) -> Scan {
    let s5 = if s4.density is None {
        match captures_of(DENSITY_PATTERN@, text) {
            Some(c) => match group(c, 1) {
                Some(t) => match parse_milli_spec(t) {
                    Some(d) => if 500 < d && d < 3000 {
                        Scan { density: Some(d), ..s4 }
                    } else {
                        s4
                    },
                    None => s4,
                },
                None => s4,
            },
            None => s4,
        }
    } else {
        s4
    };
    let s6 = if s5.diameter is None {
        match captures_of(DIAMETER_PATTERN@, text) {
            Some(c) => match group(c, 1) {
                Some(t) => match parse_milli_spec(t) {
                    Some(d) => if near(d, 1750, 100) || near(d, 2850, 100) {
                        Scan { diameter: Some(d), ..s5 }
                    } else {
                        s5
                    },
                    None => s5,
                },
                None => s5,
            },
            None => s5,
        }
    } else {
        s5
    };
    let s7 = if s6.diameter is None {
        Scan { diameter: Some(1750), ..s6 }
    } else {
        s6
    };
    if s7.nozzle_min is Some && s7.bed_min is Some {
        Scan { confidence: bump(s7.confidence, 50), ..s7 }
    } else {
        s7
    }
}

/// The regular-expression pass over the page text: each field is looked
/// for only while it is still missing.
pub open spec fn regex_scan(st: Scan, text: Seq<char>) -> Scan {
    regex_material(regex_bed(regex_nozzle(st, text), text), text)
}

fn group_milli(c: &Vec<Option<String>>, i: usize) -> (r: Option<Option<i64>>)
    ensures
        match group(opt_strings_view(c@), i as int) {
            Some(t) => r == Some(parse_milli_spec(t)),
            None => r is None,
        },
{
    match group_text(c, i) {
        Some(t) => Some(parse_milli(&t)),
        None => None,
    }
}

fn regex_nozzle_exec(text: &str, f: &mut Found)
    ensures
        final(f)@ == regex_nozzle(old(f)@, text@),
{
    if f.nozzle_min.is_none() {
        match first_captures(NOZZLE_RANGE_PATTERN, text) {
            Some(c) => match range_from_captures(&c) {
                Some((lo, hi)) => if lo >= 140 && hi <= 340 {
                    set_nozzle(f, lo, hi, 150);
                },
                None => {},
            },
            None => {},
        }
    }
    if f.nozzle_min.is_none() {
        match first_captures(NOZZLE_SINGLE_PATTERN, text) {
            Some(c) => match group_number(&c, 1) {
                Some(Some(t)) => if 140 <= t && t <= 340 {
                    f.nozzle = Some(t);
                    f.nozzle_min = Some(t - 10);
                    f.nozzle_max = Some(t + 10);
                    f.confidence = bump_exec(f.confidence, 100);
                },
                _ => {},
            },
            None => {},
        }
    }
}

fn regex_bed_exec(text: &str, f: &mut Found)
    ensures
        final(f)@ == regex_bed(old(f)@, text@),
{
    if f.bed_min.is_none() {
        match first_captures(BED_RANGE_PATTERN, text) {
            Some(c) => match range_from_captures(&c) {
                Some((lo, hi)) => if lo <= 130 && hi <= 130 {
                    set_bed(f, lo, hi, 80);
                },
                None => {},
            },
            None => {},
        }
    }
    if f.bed_min.is_none() {
        match first_captures(BED_SINGLE_PATTERN, text) {
            Some(c) => match group_number(&c, 1) {
                Some(Some(t)) => if t <= 130 {
                    f.hot_plate = Some(t);
                    f.textured_plate = Some(t);
                    f.bed_min = Some(if t >= 5 { t - 5 } else { 0 });
                    f.bed_max = Some(t + 5);
                    f.confidence = bump_exec(f.confidence, 50);
                },
                _ => {},
            },
            None => {},
        }
    }
}

fn regex_material_exec(text: &str, f: &mut Found)
    ensures
        final(f)@ == regex_material(old(f)@, text@),
{
    if f.density.is_none() {
        match first_captures(DENSITY_PATTERN, text) {
            Some(c) => match group_milli(&c, 1) {
                Some(Some(d)) => if 500 < d && d < 3000 {
                    f.density = Some(d);
                },
                _ => {},
            },
            None => {},
        }
    }
    if f.diameter.is_none() {
        match first_captures(DIAMETER_PATTERN, text) {
            Some(c) => match group_milli(&c, 1) {
                Some(Some(d)) => if (1650 < d && d < 1850) || (2750 < d && d < 2950) {
                    f.diameter = Some(d);
                },
                _ => {},
            },
            None => {},
        }
    }
    if f.diameter.is_none() {
        f.diameter = Some(1750);
    }
    if f.nozzle_min.is_some() && f.bed_min.is_some() {
        f.confidence = bump_exec(f.confidence, 50);
    }
}

/// Runs the regular-expression pass (see `regex_scan`).
fn try_regex(text: &str, f: &mut Found)
    ensures
        final(f)@ == regex_scan(old(f)@, text@),
{
    regex_nozzle_exec(text, f);
    regex_bed_exec(text, f);
    regex_material_exec(text, f);
}

// ---------------------------------------------------------------------------
// Label / value pairs (tables and definition lists)
// ---------------------------------------------------------------------------

/// `s` with every trailing repetition of `t` removed (`str::trim_end_matches`).
pub open spec fn strip_suffixes(s: Seq<char>, t: Seq<char>) -> Seq<char>
    decreases s.len(),
{
    if t.len() > 0 && ends_with_seq(s, t) {
        strip_suffixes(s.take(s.len() - t.len()), t)
    } else {
        s
    }
}

fn strip_suffixes_exec(s: &Vec<char>, t: &str) -> (r: Vec<char>)
    ensures
        r@ == strip_suffixes(s@, t@),
{
    let tv = chars_of(t);
    let mut cur = crate::text::sub_chars(s, 0, s.len());
    assert(cur@ == s@);
    while tv.len() > 0 && ends_with(&cur, &tv)
        invariant
            strip_suffixes(s@, tv@) == strip_suffixes(cur@, tv@),
        decreases cur.len(),
    {
        let n = cur.len() - tv.len();
        cur = crate::text::sub_chars(&cur, 0, n);
    }
    cur
}

/// The thousandths value of a density such as "1.24 g/cm³".
pub open spec fn density_value(v: Seq<char>) -> Option<i64> {
    parse_milli_spec(trim(strip_suffixes(strip_suffixes(v, "g/cm³"@), "g/cm3"@)))
}

/// The thousandths value of a diameter such as "1.75mm".
pub open spec fn diameter_value(v: Seq<char>) -> Option<i64> {
    parse_milli_spec(trim(strip_suffixes(v, "mm"@)))
}

fn parse_density(v: &Vec<char>) -> (r: Option<i64>)
    ensures
        r == density_value(v@),
{
    let a = strip_suffixes_exec(v, "g/cm³");
    let b = strip_suffixes_exec(&a, "g/cm3");
    parse_milli(&trim_chars(&b))
}

fn parse_diameter(v: &Vec<char>) -> (r: Option<i64>)
    ensures
        r == diameter_value(v@),
{
    let a = strip_suffixes_exec(v, "mm");
    parse_milli(&trim_chars(&a))
}

/// A (lowercased) label naming the nozzle temperature.
pub open spec fn nozzle_label(l: Seq<char>) -> bool {
    contains_seq(l, "nozzle"@) || contains_seq(l, "print temp"@) || contains_seq(l, "extrusion"@)
        || contains_seq(l, "hotend"@)
}

/// A (lowercased) label naming the bed temperature.
pub open spec fn bed_label(l: Seq<char>) -> bool {
    contains_seq(l, "bed"@) || contains_seq(l, "build plate"@) || contains_seq(l, "heated"@)
        || contains_seq(l, "platform"@)
}

/// What one label / value pair adds: a nozzle or bed range, a density or a
/// diameter, each only while still missing.
pub open spec fn label_scan(st: Scan, label: Seq<char>, value: Seq<char>) -> Scan {
    if nozzle_label(label) && st.nozzle_min is None {
        match temp_range(value) {
            Some((lo, hi)) => with_nozzle(st, lo, hi, 200),
            None => st,
        }
    } else if bed_label(label) && st.bed_min is None {
        match temp_range(value) {
            Some((lo, hi)) => with_bed(st, lo, hi, 100),
            None => st,
        }
    } else if contains_seq(label, "densit"@) && st.density is None {
        match density_value(value) {
            Some(d) => Scan { density: Some(d), ..st },
            None => st,
        }
    } else if contains_seq(label, "diam"@) && st.diameter is None {
        match diameter_value(value) {
            Some(d) => Scan { diameter: Some(d), ..st },
            None => st,
        }
    } else {
        st
    }
}

fn apply_label_value(label: &Vec<char>, value: &Vec<char>, f: &mut Found)
    ensures
        final(f)@ == label_scan(old(f)@, label@, value@),
{
    let is_nozzle = contains_str(label, "nozzle") || contains_str(label, "print temp")
        || contains_str(label, "extrusion") || contains_str(label, "hotend");
    let is_bed = contains_str(label, "bed") || contains_str(label, "build plate") || contains_str(
        label,
        "heated",
    ) || contains_str(label, "platform");
    let is_density = contains_str(label, "densit");
    let is_diameter = contains_str(label, "diam");
    if is_nozzle && f.nozzle_min.is_none() {
        match parse_temp_range(string_of(value).as_str()) {
            Some((lo, hi)) => set_nozzle(f, lo, hi, 200),
            None => {},
        }
    } else if is_bed && f.bed_min.is_none() {
        match parse_temp_range(string_of(value).as_str()) {
            Some((lo, hi)) => set_bed(f, lo, hi, 100),
            None => {},
        }
    } else if is_density && f.density.is_none() {
        match parse_density(value) {
            Some(d) => f.density = Some(d),
            None => {},
        }
    } else if is_diameter && f.diameter.is_none() {
        match parse_diameter(value) {
            Some(d) => f.diameter = Some(d),
            None => {},
        }
    }
}

/// What one table row adds: with two cells or more, the lowercased first
/// cell labels the second, and then the third when there is one (cells
/// trimmed).
pub open spec fn row_scan(st: Scan, cells: Seq<Seq<char>>) -> Scan {
    if cells.len() < 2 {
        st
    } else {
        let label = lowercase_of(trim(cells[0]));
        let s1 = label_scan(st, label, trim(cells[1]));
        if cells.len() >= 3 {
            label_scan(s1, label, trim(cells[2]))
        } else {
            s1
        }
    }
}

/// What the table rows add, in order.
pub open spec fn table_scan(st: Scan, rows: Seq<Seq<Seq<char>>>) -> Scan
    decreases rows.len(),
{
    if rows.len() == 0 {
        st
    } else {
        row_scan(table_scan(st, rows.drop_last()), rows.last())
    }
}

/// What the definition lists add: the `i`-th (trimmed, lowercased) term
/// labels the `i`-th (trimmed) description, for as many pairs as both have.
pub open spec fn list_scan(st: Scan, terms: Seq<Seq<char>>, descs: Seq<Seq<char>>) -> Scan
    decreases terms.len(),
{
    if terms.len() == 0 || descs.len() == 0 {
        st
    } else if terms.len() <= descs.len() {
        label_scan(
            list_scan(st, terms.drop_last(), descs),
            lowercase_of(trim(terms.last())),
            trim(descs[terms.len() - 1]),
        )
    } else {
        list_scan(st, terms.take(descs.len() as int), descs)
    }
}

fn try_tables(rows: &Vec<Vec<String>>, f: &mut Found)
    ensures
        final(f)@ == table_scan(old(f)@, rows@.map_values(|row: Vec<String>| strings_view(row@))),
{
    let ghost rv = rows@.map_values(|row: Vec<String>| strings_view(row@));
    let ghost s0 = f@;
    let mut i: usize = 0;
    while i < rows.len()
        invariant
            i <= rows.len(),
            rv == rows@.map_values(|row: Vec<String>| strings_view(row@)),
            f@ == table_scan(s0, rv.take(i as int)),
        decreases rows.len() - i,
    {
        proof {
            assert(rv.take(i + 1).drop_last() == rv.take(i as int));
            assert(rv.take(i + 1).last() == rv[i as int]);
        }
        let cells = &rows[i];
        if cells.len() >= 2 {
            let label = lowercase(&trim_chars(&chars_of(cells[0].as_str())));
            apply_label_value(&label, &trim_chars(&chars_of(cells[1].as_str())), f);
            if cells.len() >= 3 {
                apply_label_value(&label, &trim_chars(&chars_of(cells[2].as_str())), f);
            }
        }
        i = i + 1;
    }
    assert(rv.take(rows.len() as int) == rv);
}

fn try_definition_lists(terms: &Vec<String>, descs: &Vec<String>, f: &mut Found)
    ensures
        final(f)@ == list_scan(old(f)@, strings_view(terms@), strings_view(descs@)),
{
    let ghost tv = strings_view(terms@);
    let ghost dv = strings_view(descs@);
    let ghost s0 = f@;
    let n = if terms.len() <= descs.len() { terms.len() } else { descs.len() };
    let ghost tn = tv.take(n as int);
    proof {
        if tv.len() > dv.len() {
            assert(list_scan(s0, tv, dv) == list_scan(s0, tv.take(dv.len() as int), dv));
        } else {
            assert(tn == tv);
        }
    }
    assert(list_scan(s0, tv, dv) == list_scan(s0, tn, dv));
    let mut i: usize = 0;
    while i < n
        invariant
            i <= n,
            n <= terms.len(),
            n <= descs.len(),
            tv == strings_view(terms@),
            dv == strings_view(descs@),
            tn == tv.take(n as int),
            f@ == list_scan(s0, tn.take(i as int), dv),
        decreases n - i,
    {
        proof {
            assert(tn.take(i + 1).drop_last() == tn.take(i as int));
            assert(tn.take(i + 1).last() == tv[i as int]);
        }
        let label = lowercase(&trim_chars(&chars_of(terms[i].as_str())));
        let value = trim_chars(&chars_of(descs[i].as_str()));
        apply_label_value(&label, &value, f);
        i = i + 1;
    }
    assert(tn.take(n as int) == tn);
}

// ---------------------------------------------------------------------------
// JSON-LD structured data
// ---------------------------------------------------------------------------

/// The selector of JSON-LD scripts.
pub const LD_JSON_SELECTOR: &'static str = "script[type='application/ld+json']";

/// How deep into nested arrays and `@graph` lists the extractor looks.
/// `serde_json` refuses documents nested deeper than 128 levels, so this
/// budget reaches every value it can return.
pub const JSON_DEPTH: u64 = 128;

/// The member `key` among an object's members (the first with that key).
pub open spec fn member_in(es: Seq<(String, JsonValue)>, key: Seq<char>) -> Option<JsonValue>
    decreases es.len(),
{
    if es.len() == 0 {
        None
    } else if es[0].0@ == key {
        Some(es[0].1)
    } else {
        member_in(es.drop_first(), key)
    }
}

/// The member `key` of an object; nothing for other values.
pub open spec fn member(v: JsonValue, key: Seq<char>) -> Option<JsonValue> {
    match v {
        JsonValue::Object(es) => member_in(es@, key),
        _ => None,
    }
}

/// The member `key` when it is a string.
pub open spec fn str_member(v: JsonValue, key: Seq<char>) -> Option<Seq<char>> {
    match member(v, key) {
        Some(JsonValue::Str(s)) => Some(s@),
        _ => None,
    }
}

/// The member `key` when it is an array.
pub open spec fn array_member(v: JsonValue, key: Seq<char>) -> Option<Seq<JsonValue>> {
    match member(v, key) {
        Some(JsonValue::Array(a)) => Some(a@),
        _ => None,
    }
}

pub(crate) fn find_member<'a>(v: &'a JsonValue, key: &str) -> (r: Option<&'a JsonValue>)
    ensures
        match r {
            Some(x) => member(*v, key@) == Some(*x),
            None => member(*v, key@) is None,
        },
{
    match v {
        JsonValue::Object(es) => {
            let k = chars_of(key);
            let mut i: usize = 0;
            assert(es@.skip(0) == es@);
            assert(member(*v, key@) == member_in(es@, key@));
            while i < es.len()
                invariant
                    i <= es.len(),
                    member(*v, key@) == member_in(es@, key@),
                    k@ == key@,
                    member_in(es@, key@) == member_in(es@.skip(i as int), key@),
                decreases es.len() - i,
            {
                proof {
                    assert(es@.skip(i as int)[0] == es@[i as int]);
                    assert(es@.skip(i as int).drop_first() == es@.skip(i + 1));
                }
                if chars_eq(&chars_of(es[i].0.as_str()), &k) {
                    assert(member_in(es@.skip(i as int), key@) == Some(es@[i as int].1));
                    return Some(&es[i].1);
                }
                i = i + 1;
            }
            None
        },
        _ => None,
    }
}

fn find_str_member(v: &JsonValue, key: &str) -> (r: Option<Vec<char>>)
    ensures
        match r {
            Some(t) => str_member(*v, key@) == Some(t@),
            None => str_member(*v, key@) is None,
        },
{
    match find_member(v, key) {
        Some(JsonValue::Str(s)) => Some(chars_of(s.as_str())),
        _ => None,
    }
}

fn find_array_member<'a>(v: &'a JsonValue, key: &str) -> (r: Option<&'a Vec<JsonValue>>)
    ensures
        match r {
            Some(a) => array_member(*v, key@) == Some(a@),
            None => array_member(*v, key@) is None,
        },
{
    match find_member(v, key) {
        Some(JsonValue::Array(a)) => Some(a),
        _ => None,
    }
}

/// What one `additionalProperty` entry adds, and whether it gave a
/// temperature range: its lowercased `name` chooses the field, its `value`
/// (else `unitText`) gives it. Ranges found here replace earlier ones.
pub open spec fn prop_scan(st: Scan, prop: JsonValue) -> (Scan, bool) {
    let pn = lowercase_of(
        match str_member(prop, "name"@) {
            Some(n) => n,
            None => Seq::empty(),
        },
    );
    let pv = match str_member(prop, "value"@) {
        Some(x) => x,
        None => match str_member(prop, "unitText"@) {
            Some(x) => x,
            None => Seq::empty(),
        },
    };
    if contains_seq(pn, "nozzle"@) || contains_seq(pn, "print"@) || contains_seq(pn, "extru"@) {
        match temp_range(pv) {
            Some((lo, hi)) => (with_nozzle(st, lo, hi, 350), true),
            None => (st, false),
        }
    } else if contains_seq(pn, "bed"@) || contains_seq(pn, "build plate"@) || contains_seq(
        pn,
        "platform"@,
    ) {
        match temp_range(pv) {
            Some((lo, hi)) => (with_bed(st, lo, hi, 150), true),
            None => (st, false),
        }
    } else if contains_seq(pn, "material"@) || contains_seq(pn, "type"@) {
        if pv.len() > 0 && st.material.len() == 0 {
            (Scan { material: pv, ..st }, false)
        } else {
            (st, false)
        }
    } else if contains_seq(pn, "diameter"@) || contains_seq(pn, "diam"@) {
        match diameter_value(pv) {
            Some(d) => (Scan { diameter: Some(d), ..st }, false),
            None => (st, false),
        }
    } else if contains_seq(pn, "densit"@) {
        match density_value(pv) {
            Some(d) => (Scan { density: Some(d), ..st }, false),
            None => (st, false),
        }
    } else {
        (st, false)
    }
}

/// What the `additionalProperty` entries add, in order, and whether any
/// gave a temperature range.
pub open spec fn props_scan(st: Scan, props: Seq<JsonValue>) -> (Scan, bool)
    decreases props.len(),
{
    if props.len() == 0 {
        (st, false)
    } else {
        let (s1, f1) = props_scan(st, props.drop_last());
        let (s2, f2) = prop_scan(s1, props.last());
        (s2, f1 || f2)
    }
}

/// What a JSON-LD value adds, and whether it gave a temperature range. An
/// array is read item by item until one gives a range; an object gives its
/// `name` (when none is known yet), its `additionalProperty` entries and
/// then every item of its `@graph`. `depth` bounds the nesting read.
pub open spec fn ld_value(st: Scan, v: JsonValue, depth: nat) -> (Scan, bool)
    decreases depth, 0int, 0int,
{
    if depth == 0 {
        (st, false)
    } else {
        match v {
            JsonValue::Array(items) => ld_items(st, items@, (depth - 1) as nat),
            _ => {
                let st1 = if st.name.len() == 0 || st.name == "Unknown Filament"@ {
                    match str_member(v, "name"@) {
                        Some(n) => if n.len() > 0 {
                            Scan { name: n, ..st }
                        } else {
                            st
                        },
                        None => st,
                    }
                } else {
                    st
                };
                let (st2, f1) = match array_member(v, "additionalProperty"@) {
                    Some(ps) => props_scan(st1, ps),
                    None => (st1, false),
                };
                match array_member(v, "@graph"@) {
                    Some(g) => {
                        let (st3, f2) = ld_graph(st2, g, (depth - 1) as nat);
                        (st3, f1 || f2)
                    },
                    None => (st2, f1),
                }
            },
        }
    }
}

/// Array items, read in order until one gives a temperature range.
pub open spec fn ld_items(st: Scan, items: Seq<JsonValue>, depth: nat) -> (Scan, bool)
    decreases depth, 1int, items.len(),
{
    if items.len() == 0 {
        (st, false)
    } else {
        let (s1, f) = ld_value(st, items[0], depth);
        if f {
            (s1, true)
        } else {
            ld_items(s1, items.drop_first(), depth)
        }
    }
}

/// `@graph` items, all read in order; whether any gave a temperature range.
pub open spec fn ld_graph(st: Scan, items: Seq<JsonValue>, depth: nat) -> (Scan, bool)
    decreases depth, 1int, items.len(),
{
    if items.len() == 0 {
        (st, false)
    } else {
        let (s1, f1) = ld_value(st, items[0], depth);
        let (s2, f2) = ld_graph(s1, items.drop_first(), depth);
        (s2, f1 || f2)
    }
}

fn prop_exec(prop: &JsonValue, f: &mut Found) -> (found: bool)
    ensures
        (final(f)@, found) == prop_scan(old(f)@, *prop),
{
    let pn = lowercase(
        &match find_str_member(prop, "name") {
            Some(n) => n,
            None => Vec::new(),
        },
    );
    let pv = match find_str_member(prop, "value") {
        Some(x) => x,
        None => match find_str_member(prop, "unitText") {
            Some(x) => x,
            None => Vec::new(),
        },
    };
    if contains_str(&pn, "nozzle") || contains_str(&pn, "print") || contains_str(&pn, "extru") {
        match parse_temp_range(string_of(&pv).as_str()) {
            Some((lo, hi)) => {
                set_nozzle(f, lo, hi, 350);
                true
            },
            None => false,
        }
    } else if contains_str(&pn, "bed") || contains_str(&pn, "build plate") || contains_str(
        &pn,
        "platform",
    ) {
        match parse_temp_range(string_of(&pv).as_str()) {
            Some((lo, hi)) => {
                set_bed(f, lo, hi, 150);
                true
            },
            None => false,
        }
    } else if contains_str(&pn, "material") || contains_str(&pn, "type") {
        if pv.len() > 0 && f.material.as_str().is_empty() {
            f.material = string_of(&pv);
        }
        false
    } else if contains_str(&pn, "diameter") || contains_str(&pn, "diam") {
        match parse_diameter(&pv) {
            Some(d) => f.diameter = Some(d),
            None => {},
        }
        false
    } else if contains_str(&pn, "densit") {
        match parse_density(&pv) {
            Some(d) => f.density = Some(d),
            None => {},
        }
        false
    } else {
        false
    }
}

fn props_exec(props: &Vec<JsonValue>, f: &mut Found) -> (found: bool)
    ensures
        (final(f)@, found) == props_scan(old(f)@, props@),
{
    let ghost s0 = f@;
    let mut found = false;
    let mut i: usize = 0;
    while i < props.len()
        invariant
            i <= props.len(),
            (f@, found) == props_scan(s0, props@.take(i as int)),
        decreases props.len() - i,
    {
        proof {
            assert(props@.take(i + 1).drop_last() == props@.take(i as int));
            assert(props@.take(i + 1).last() == props@[i as int]);
        }
        let g = prop_exec(&props[i], f);
        found = found || g;
        i = i + 1;
    }
    assert(props@.take(props.len() as int) == props@);
    found
}

fn ld_value_exec(v: &JsonValue, f: &mut Found, depth: u64) -> (found: bool)
    ensures
        (final(f)@, found) == ld_value(old(f)@, *v, depth as nat),
    decreases depth, 0int, 0int,
{
    if depth == 0 {
        return false;
    }
    match v {
        JsonValue::Array(items) => ld_items_exec(items, f, depth - 1),
        _ => {
            let unnamed = f.name.as_str().is_empty() || eq_str(
                &chars_of(f.name.as_str()),
                "Unknown Filament",
            );
            if unnamed {
                match find_str_member(v, "name") {
                    Some(n) => if n.len() > 0 {
                        f.name = string_of(&n);
                    },
                    None => {},
                }
            }
            let f1 = match find_array_member(v, "additionalProperty") {
                Some(ps) => props_exec(ps, f),
                None => false,
            };
            match find_array_member(v, "@graph") {
                Some(g) => {
                    let f2 = ld_graph_exec(g, f, depth - 1);
                    f1 || f2
                },
                None => f1,
            }
        },
    }
}

fn ld_items_exec(items: &Vec<JsonValue>, f: &mut Found, depth: u64) -> (found: bool)
    ensures
        (final(f)@, found) == ld_items(old(f)@, items@, depth as nat),
    decreases depth, 1int, items@.len(),
{
    let ghost s0 = f@;
    let mut i: usize = 0;
    assert(items@.skip(0) == items@);
    while i < items.len()
        invariant
            i <= items.len(),
            s0 == old(f)@,
            ld_items(s0, items@, depth as nat) == ld_items(f@, items@.skip(i as int), depth as nat),
        decreases items.len() - i,
    {
        proof {
            assert(items@.skip(i as int)[0] == items@[i as int]);
            assert(items@.skip(i as int).drop_first() == items@.skip(i + 1));
        }
        let ghost before = f@;
        let found = ld_value_exec(&items[i], f, depth);
        proof {
            let (s1, fnd) = ld_value(before, items@.skip(i as int)[0], depth as nat);
            assert(s1 == f@ && fnd == found);
            if found {
                assert(ld_items(before, items@.skip(i as int), depth as nat) == (f@, true));
            }
        }
        if found {
            return true;
        }
        i = i + 1;
    }
    false
}

fn ld_graph_exec(items: &Vec<JsonValue>, f: &mut Found, depth: u64) -> (found: bool)
    ensures
        (final(f)@, found) == ld_graph(old(f)@, items@, depth as nat),
    decreases depth, 1int, items@.len(),
{
    let ghost s0 = f@;
    let mut any = false;
    let mut i: usize = 0;
    assert(items@.skip(0) == items@);
    while i < items.len()
        invariant
            i <= items.len(),
            ({
                let (sr, fr) = ld_graph(f@, items@.skip(i as int), depth as nat);
                ld_graph(s0, items@, depth as nat) == (sr, any || fr)
            }),
        decreases items.len() - i,
    {
        proof {
            assert(items@.skip(i as int)[0] == items@[i as int]);
            assert(items@.skip(i as int).drop_first() == items@.skip(i + 1));
        }
        let g = ld_value_exec(&items[i], f, depth);
        any = any || g;
        i = i + 1;
    }
    any
}

/// What the JSON-LD scripts add: read in order until one gives a
/// temperature range; scripts that are not JSON are passed over.
pub open spec fn ld_scripts(st: Scan, texts: Seq<Seq<char>>) -> Scan
    decreases texts.len(),
{
    if texts.len() == 0 {
        st
    } else {
        match json_of(texts[0]) {
            Some(v) => {
                let (s1, found) = ld_value(st, v, JSON_DEPTH as nat);
                if found {
                    s1
                } else {
                    ld_scripts(s1, texts.drop_first())
                }
            },
            None => ld_scripts(st, texts.drop_first()),
        }
    }
}

fn try_json_ld(texts: &Vec<String>, f: &mut Found)
    ensures
        final(f)@ == ld_scripts(old(f)@, strings_view(texts@)),
{
    let ghost tv = strings_view(texts@);
    let ghost s0 = f@;
    let mut i: usize = 0;
    assert(tv.skip(0) == tv);
    while i < texts.len()
        invariant
            i <= texts.len(),
            s0 == old(f)@,
            tv == strings_view(texts@),
            ld_scripts(s0, tv) == ld_scripts(f@, tv.skip(i as int)),
        decreases texts.len() - i,
    {
        proof {
            assert(tv.skip(i as int)[0] == texts@[i as int]@);
            assert(tv.skip(i as int).drop_first() == tv.skip(i + 1));
        }
        match parse_json(texts[i].as_str()) {
            Some(v) => {
                let ghost before = f@;
                let found = ld_value_exec(&v, f, JSON_DEPTH);
                proof {
                    assert(json_of(tv.skip(i as int)[0]) == Some(v));
                    let (s1, fnd) = ld_value(before, v, JSON_DEPTH as nat);
                    assert(s1 == f@ && fnd == found);
                    if found {
                        assert(ld_scripts(before, tv.skip(i as int)) == f@);
                    }
                }
                if found {
                    return;
                }
            },
            None => {},
        }
        i = i + 1;
    }
}

// ---------------------------------------------------------------------------
// Page text, material and brand
// ---------------------------------------------------------------------------

/// A text with each run of whitespace replaced by one space.
pub open spec fn collapse_ws(s: Seq<char>) -> Seq<char>
    decreases s.len(),
{
    if s.len() == 0 {
        s
    } else {
        let prev = collapse_ws(s.drop_last());
        if is_ws(s.last()) {
            if s.len() >= 2 && is_ws(s[s.len() - 2]) {
                prev
            } else {
                prev.push(' ')
            }
        } else {
            prev.push(s.last())
        }
    }
}

/// The plain text of a page: its text nodes joined by spaces, whitespace
/// runs collapsed.
pub open spec fn page_text(html: Seq<char>) -> Seq<char> {
    collapse_ws(crate::text::join(text_nodes_of(html), seq![' ']))
}

fn collapse_whitespace(s: &Vec<char>) -> (r: Vec<char>)
    ensures
        r@ == collapse_ws(s@),
{
    let mut r: Vec<char> = Vec::new();
    let mut prev_space = false;
    let mut i: usize = 0;
    while i < s.len()
        invariant
            i <= s.len(),
            r@ == collapse_ws(s@.take(i as int)),
            prev_space == (i > 0 && is_ws(s@[i - 1])),
        decreases s.len() - i,
    {
        let c = s[i];
        proof {
            assert(s@.take(i + 1).drop_last() == s@.take(i as int));
            assert(s@.take(i + 1).last() == c);
            if i >= 1 {
                assert(s@.take(i + 1)[i - 1] == s@[i - 1]);
            }
        }
        if is_whitespace(c) {
            if !prev_space {
                r.push(' ');
            }
            prev_space = true;
        } else {
            r.push(c);
            prev_space = false;
        }
        i = i + 1;
    }
    assert(s@.take(s.len() as int) == s@);
    r
}

fn html_to_text_simple(html: &str) -> (r: Vec<char>)
    ensures
        r@ == page_text(html@),
{
    let nodes = page_text_nodes(html);
    let mut parts: Vec<Vec<char>> = Vec::new();
    let mut i: usize = 0;
    while i < nodes.len()
        invariant
            i <= nodes.len(),
            parts@.map_values(|p: Vec<char>| p@) == strings_view(nodes@).take(i as int),
        decreases nodes.len() - i,
    {
        let ghost before = parts@.map_values(|p: Vec<char>| p@);
        parts.push(chars_of(nodes[i].as_str()));
        proof {
            assert(parts@.map_values(|p: Vec<char>| p@) == before.push(nodes@[i as int]@));
            assert(strings_view(nodes@).take(i + 1) == strings_view(nodes@).take(i as int).push(
                nodes@[i as int]@,
            ));
        }
        i = i + 1;
    }
    assert(strings_view(nodes@).take(nodes.len() as int) == strings_view(nodes@));
    let sep = vec![' '];
    assert(sep@ == seq![' ']);
    let joined = crate::text::join_with(&parts, &sep);
    collapse_whitespace(&joined)
}

/// The material name derived from a filament name: the family's usual
/// name (nylon as `PA`), or the name itself when no family is recognized.
pub open spec fn inferred_material(name: Seq<char>) -> Seq<char> {
    let t = material_tag(name);
    if t == 0 {
        "PLA"@
    } else if t == 1 {
        "PETG"@
    } else if t == 2 {
        "ABS"@
    } else if t == 3 {
        "ASA"@
    } else if t == 4 {
        "TPU"@
    } else if t == 5 {
        "PA"@
    } else if t == 6 {
        "PC"@
    } else if t == 7 {
        "PVA"@
    } else if t == 8 {
        "HIPS"@
    } else {
        name
    }
}

/// Derives the material type string from a filament name.
pub fn infer_material(name: &str) -> (r: String)
    ensures
        r@ == inferred_material(name@),
{
    let m = MaterialType::from_str(name);
    match m {
        MaterialType::PLA => "PLA".to_string(),
        MaterialType::PETG => "PETG".to_string(),
        MaterialType::ABS => "ABS".to_string(),
        MaterialType::ASA => "ASA".to_string(),
        MaterialType::TPU => "TPU".to_string(),
        MaterialType::Nylon => "PA".to_string(),
        MaterialType::PC => "PC".to_string(),
        MaterialType::PVA => "PVA".to_string(),
        MaterialType::HIPS => "HIPS".to_string(),
        MaterialType::Other(s) => s,
    }
}

/// The brand derived from a filament name: its first word ("" when none).
pub open spec fn inferred_brand(name: Seq<char>) -> Seq<char> {
    if words(name).len() > 0 {
        words(name)[0]
    } else {
        Seq::empty()
    }
}

/// Derives the brand from the first word of a filament name.
pub fn infer_brand(name: &str) -> (r: String)
    ensures
        r@ == inferred_brand(name@),
{
    let ws = split_whitespace(&chars_of(name));
    assert(ws@.map_values(|w: Vec<char>| w@).len() == ws@.len());
    if ws.len() > 0 {
        proof {
            assert(ws@.map_values(|w: Vec<char>| w@)[0] == ws@[0]@);
        }
        string_of(&ws[0])
    } else {
        proof {
            reveal_strlit("");
        }
        "".to_string()
    }
}

// ---------------------------------------------------------------------------
// The whole extraction
// ---------------------------------------------------------------------------

/// Where the extraction starts: the given name, the material inferred from
/// it, nothing else.
pub open spec fn initial_scan(name: Seq<char>) -> Scan {
    Scan {
        name: name,
        material: inferred_material(name),
        nozzle_min: None,
        nozzle_max: None,
        nozzle: None,
        bed_min: None,
        bed_max: None,
        hot_plate: None,
        textured_plate: None,
        diameter: None,
        density: None,
        confidence: 0,
    }
}

/// The texts a selector gives, none when it is refused.
pub open spec fn texts_or_none(t: Option<Seq<Seq<char>>>) -> Seq<Seq<char>> {
    match t {
        Some(v) => v,
        None => Seq::empty(),
    }
}

/// What the four sources find in a page: JSON-LD first; tables and then
/// definition lists while the confidence is under one half; regular
/// expressions over the page text last.
#[verifier::opaque]
pub open spec fn extracted(html: Seq<char>, name: Seq<char>) -> Scan {
    regex_scan(structured_scan(html, name), page_text(html))
}

/// What the structured sources find before the page text is searched:
/// JSON-LD first; tables and then definition lists while the confidence is
/// under one half.
pub open spec fn structured_scan(html: Seq<char>, name: Seq<char>) -> Scan {
    let s0 = initial_scan(name);
    let s1 = match selected_texts_of(html, LD_JSON_SELECTOR@) {
        Some(t) => ld_scripts(s0, t),
        None => s0,
    };
    let s2 = if s1.confidence < 500 {
        match nested_texts_of(html, "tr"@, "td, th"@) {
            Some(rows) => table_scan(s1, rows),
            None => s1,
        }
    } else {
        s1
    };
    let s3 = if s2.confidence < 500 {
        list_scan(
            s2,
            texts_or_none(selected_texts_of(html, "dt"@)),
            texts_or_none(selected_texts_of(html, "dd"@)),
        )
    } else {
        s2
    };
    s3
}

/// A temperature range the page text states is taken when no structured
/// source gave one and it is plausible: a nozzle range within 140 to 340 C,
/// a bed range up to 130 C.
pub proof fn law_extracted_page_ranges(html: Seq<char>, name: Seq<char>)
    ensures
        structured_scan(html, name).nozzle_min is None ==> match captures_of(NOZZLE_RANGE_PATTERN@, page_text(html)) {
            Some(c) => match capture_range(c) {
                Some((lo, hi)) => 140 <= lo && hi <= 340 ==> extracted(html, name).nozzle_min == Some(lo)
                    && extracted(html, name).nozzle_max == Some(hi),
                None => true,
            },
            None => true,
        },
        structured_scan(html, name).bed_min is None ==> match captures_of(BED_RANGE_PATTERN@, page_text(html)) {
            Some(c) => match capture_range(c) {
                Some((lo, hi)) => hi <= 130 ==> extracted(html, name).bed_min == Some(lo)
                    && extracted(html, name).bed_max == Some(hi),
                None => true,
            },
            None => true,
        },
        extracted(html, name).nozzle_min == structured_scan(html, name).nozzle_min || structured_scan(
            html,
            name,
        ).nozzle_min is None,
        extracted(html, name).bed_min == structured_scan(html, name).bed_min || structured_scan(html, name).bed_min is None,
{
    reveal(extracted);
    let st = structured_scan(html, name);
    let text = page_text(html);
    let s2 = regex_nozzle(st, text);
    let s3 = regex_bed(s2, text);
    assert(regex_material(s3, text).nozzle_min == s3.nozzle_min);
    assert(regex_material(s3, text).nozzle_max == s3.nozzle_max);
    assert(regex_material(s3, text).bed_min == s3.bed_min);
    assert(regex_material(s3, text).bed_max == s3.bed_max);
    assert(s3.nozzle_min == s2.nozzle_min && s3.nozzle_max == s2.nozzle_max);
    if let Some(c) = captures_of(BED_RANGE_PATTERN@, text) {
        if let Some((lo, hi)) = capture_range(c) {
            assert(lo <= hi);
        }
    }
}

/// The diameter stated in a page's text, in thousandths of a millimetre,
/// when it is a standard filament size: within 0.1 mm of 1.75 mm or of
/// 2.85 mm.
pub open spec fn stated_diameter(text: Seq<char>) -> Option<i64> {
    match captures_of(DIAMETER_PATTERN@, text) {
        Some(c) => match group(c, 1) {
            Some(t) => match parse_milli_spec(t) {
                Some(d) => if (1650 < d && d < 1850) || (2750 < d && d < 2950) {
                    Some(d)
                } else {
                    None
                },
                None => None,
            },
            None => None,
        },
        None => None,
    }
}

/// The diameter an extraction gives: the one a structured source (JSON-LD,
/// a table, a definition list) gave; else the standard size the page text
/// states (1.75 mm or 2.85 mm, within 0.1 mm); else 1.75 mm.
pub proof fn law_extracted_diameter(html: Seq<char>, name: Seq<char>)
    ensures
        extracted(html, name).diameter == match structured_scan(html, name).diameter {
            Some(d) => Some(d),
            None => match stated_diameter(page_text(html)) {
                Some(d) => Some(d),
                None => Some(1750i64),
            },
        },
{
    reveal(extracted);
    let st = structured_scan(html, name);
    let text = page_text(html);
    assert(regex_nozzle(st, text).diameter == st.diameter);
    assert(regex_bed(regex_nozzle(st, text), text).diameter == st.diameter);
}

/// The specs built from a finished scan: the scan's fields, the brand, the
/// confidence capped at 0.65 and nothing else (the source URL aside).
pub open spec fn specs_of_scan(r: FilamentSpecs, sc: Scan, brand: Seq<char>) -> bool {
    &&& r.name@ == sc.name
    &&& r.brand@ == brand
    &&& r.material@ == sc.material
    &&& r.nozzle_temp_min == sc.nozzle_min
    &&& r.nozzle_temp_max == sc.nozzle_max
    &&& r.nozzle_temperature == sc.nozzle
    &&& r.bed_temp_min == sc.bed_min
    &&& r.bed_temp_max == sc.bed_max
    &&& r.hot_plate_temp == sc.hot_plate
    &&& r.textured_plate_temp == sc.textured_plate
    &&& r.diameter_mm == sc.diameter
    &&& r.density_g_cm3 == sc.density
    &&& r.extraction_confidence == if sc.confidence < 650 { sc.confidence } else { 650 }
    &&& r.nozzle_temperature_initial_layer is None
    &&& r.hot_plate_temp_initial_layer is None
    &&& r.cool_plate_temp is None
    &&& r.cool_plate_temp_initial_layer is None
    &&& r.eng_plate_temp is None
    &&& r.eng_plate_temp_initial_layer is None
    &&& r.textured_plate_temp_initial_layer is None
    &&& r.max_volumetric_speed is None
    &&& r.filament_flow_ratio is None
    &&& r.pressure_advance is None
    &&& r.fan_min_speed is None
    &&& r.fan_max_speed is None
    &&& r.overhang_fan_speed is None
    &&& r.close_fan_the_first_x_layers is None
    &&& r.additional_cooling_fan_speed is None
    &&& r.fan_speed_percent is None
    &&& r.slow_down_layer_time is None
    &&& r.slow_down_min_speed is None
    &&& r.retraction_distance_mm is None
    &&& r.retraction_speed_mm_s is None
    &&& r.deretraction_speed_mm_s is None
    &&& r.bridge_speed is None
    &&& r.temperature_vitrification is None
    &&& r.filament_cost is None
    &&& r.max_speed_mm_s is None
}

/// Extracts filament specs from raw HTML without any AI call; the
/// confidence reflects how much was found (at most 0.65).
pub fn extract(html: &str, filament_name: &str) -> (r: FilamentSpecs)
    ensures
        specs_of_scan(r, extracted(html@, filament_name@), inferred_brand(filament_name@)),
        r.source_url@.len() == 0,
        r.extraction_confidence <= 650,
        r.diameter_mm == match structured_scan(html@, filament_name@).diameter {
            Some(d) => Some(d),
            None => match stated_diameter(page_text(html@)) {
                Some(d) => Some(d),
                None => Some(1750i64),
            },
        },
{
    proof {
        reveal(extracted);
        law_extracted_diameter(html@, filament_name@);
    }
    let mut f = Found {
        name: filament_name.to_string(),
        material: infer_material(filament_name),
        nozzle_min: None,
        nozzle_max: None,
        nozzle: None,
        bed_min: None,
        bed_max: None,
        hot_plate: None,
        textured_plate: None,
        diameter: None,
        density: None,
        confidence: 0,
    };
    assert(f@ == initial_scan(filament_name@));
    match selected_texts(html, LD_JSON_SELECTOR) {
        Some(texts) => try_json_ld(&texts, &mut f),
        None => {},
    }
    if f.confidence < 500 {
        match nested_texts(html, "tr", "td, th") {
            Some(rows) => try_tables(&rows, &mut f),
            None => {},
        }
    }
    if f.confidence < 500 {
        let terms = match selected_texts(html, "dt") {
            Some(t) => t,
            None => Vec::new(),
        };
        let descs = match selected_texts(html, "dd") {
            Some(t) => t,
            None => Vec::new(),
        };
        proof {
            let e: Seq<String> = Seq::empty();
            assert(strings_view(e) =~= Seq::<Seq<char>>::empty());
        }
        try_definition_lists(&terms, &descs, &mut f);
    }
    let text = html_to_text_simple(html);
    try_regex(string_of(&text).as_str(), &mut f);
    let confidence = if f.confidence < 650 { f.confidence } else { 650 };
    let mut specs = FilamentSpecs::named(f.name);
    specs.brand = infer_brand(filament_name);
    specs.material = f.material;
    specs.nozzle_temp_min = f.nozzle_min;
    specs.nozzle_temp_max = f.nozzle_max;
    specs.nozzle_temperature = f.nozzle;
    specs.bed_temp_min = f.bed_min;
    specs.bed_temp_max = f.bed_max;
    specs.hot_plate_temp = f.hot_plate;
    specs.textured_plate_temp = f.textured_plate;
    specs.diameter_mm = f.diameter;
    specs.density_g_cm3 = f.density;
    specs.extraction_confidence = confidence;
    specs
}

} // verus!
