//! Reading a vision model's defect report.

use vstd::prelude::*;
use crate::fixed::parse_milli;
use crate::mapper::types::{DefectView, DetectedDefect};
use crate::scraper::extraction::{milli_member, quoted};
use crate::scraper::html_extractor::{array_member, find_member, json_parse_of, read_json, str_member, JsonValue};
use crate::text::{chars_of, opt_view, push_str, string_of};

verus! {

broadcast use vstd::string::group_string_axioms;

/// What a vision model reports of a print photo.
#[derive(Debug, Clone)]
pub struct DefectReport {
    pub defects: Vec<DetectedDefect>,
    pub overall_quality: String,
    pub notes: Option<String>,
}

/// The defect an entry of the `defects` array describes: its type, severity
/// and confidence (in thousandths), when all three are there.
pub open spec fn defect_from(v: JsonValue) -> Option<DefectView> {
    match (str_member(v, "defect_type"@), milli_member(v, "severity"@), milli_member(v, "confidence"@)) {
        (Some(t), Some(s), Some(c)) => Some(DefectView { defect_type: t, severity: s as int, confidence: c as int }),
        _ => None,
    }
}

/// The defects of the entries that describe one, in order.
pub open spec fn defects_from(items: Seq<JsonValue>) -> Seq<DefectView>
    decreases items.len(),
{
    if items.len() == 0 {
        Seq::empty()
    } else {
        let t = defects_from(items.drop_last());
        match defect_from(items.last()) {
            Some(d) => t.push(d),
            None => t,
        }
    }
}

/// The report would be cut inside a character when quoted in the parse
/// error (only then does quoting its first 500 bytes fail).
pub open spec fn report_quote_cuts_char(text: Seq<char>) -> bool {
    crate::scraper::search::byte_len(text) > 500 && json_parse_of(text) is Err && !vstd::utf8::is_char_boundary(
        vstd::utf8::encode_utf8(text),
        500,
    )
}

/// The refusal of a report without a `defects` array.
pub const MISSING_DEFECTS: &'static str = "Missing 'defects' array";
/// The refusal of a report without an overall quality.
pub const MISSING_QUALITY: &'static str = "Missing 'overall_quality' field";

/// What reading a report gives: the defects of the entries that describe
/// one, the overall quality and the notes; or the refusal of a text that is
/// not JSON (quoting the parser's error and the start of the text), then of
/// a report without a `defects` array, then of one without an overall
/// quality.
pub open spec fn report_result(text: Seq<char>, r: Result<DefectReport, String>) -> bool {
    match json_parse_of(text) {
        Err(e) => r matches Err(m) && m@ == "Failed to parse defect report JSON: "@ + e + ". Response: "@ + quoted(
            text,
        ),
        Ok(v) => match array_member(v, "defects"@) {
            None => r matches Err(m) && m@ == MISSING_DEFECTS@,
            Some(items) => match str_member(v, "overall_quality"@) {
                None => r matches Err(m) && m@ == MISSING_QUALITY@,
                Some(q) => r matches Ok(rep) && rep.defects@.map_values(|d: DetectedDefect| d@) == defects_from(
                    items,
                ) && rep.overall_quality@ == q && opt_view(rep.notes) == str_member(v, "notes"@),
            },
        },
    }
}

/// The member `key` of an entry when it is a string.
fn string_member(v: &JsonValue, key: &str) -> (r: Option<String>)
    ensures
        opt_view(r) == str_member(*v, key@),
{
    match find_member(v, key) {
        Some(JsonValue::Str(s)) => Some(s.clone()),
        _ => None,
    }
}

/// The member `key` of an entry when it is a number, in thousandths.
fn thousandths_member(v: &JsonValue, key: &str) -> (r: Option<i64>)
    ensures
        r == milli_member(*v, key@),
{
    match find_member(v, key) {
        Some(JsonValue::Number(_, t)) => parse_milli(&chars_of(t.as_str())),
        _ => None,
    }
}

/// The defect an entry describes, if it does.
fn defect_entry(v: &JsonValue) -> (r: Option<DetectedDefect>)
    ensures
        match r {
            Some(d) => defect_from(*v) == Some(d@),
            None => defect_from(*v) is None,
        },
{
    let t = string_member(v, "defect_type");
    let s = thousandths_member(v, "severity");
    let c = thousandths_member(v, "confidence");
    match (t, s, c) {
        (Some(t), Some(s), Some(c)) => Some(DetectedDefect { defect_type: t, severity: s, confidence: c }),
        _ => None,
    }
}

/// Reads a vision model's JSON defect report (see `report_result`).
pub fn parse_defect_report(response_text: &str) -> (r: Result<DefectReport, String>)
    requires
        !report_quote_cuts_char(response_text@),
    ensures
        report_result(response_text@, r),
{
    match read_json(response_text) {
        Err(e) => {
            let mut v: Vec<char> = Vec::new();
            push_str(&mut v, "Failed to parse defect report JSON: ");
            push_str(&mut v, e.as_str());
            push_str(&mut v, ". Response: ");
            if response_text.len() > 500 {
                let (head, _) = response_text.split_at(500);
                proof {
                    vstd::utf8::encode_utf8_decode_utf8(head@);
                    assert(vstd::utf8::encode_utf8(head@) == vstd::utf8::encode_utf8(response_text@).subrange(0, 500));
                }
                push_str(&mut v, head);
                push_str(&mut v, "...");
                assert(head@ == vstd::utf8::decode_utf8(vstd::utf8::encode_utf8(response_text@).subrange(0, 500)));
                assert(quoted(response_text@) == head@ + "..."@);
            } else {
                push_str(&mut v, response_text);
                assert(quoted(response_text@) == response_text@);
            }
            let m = string_of(&v);
            assert(m@ == "Failed to parse defect report JSON: "@ + e@ + ". Response: "@ + quoted(response_text@));
            Err(m)
        },
        Ok(json) => {
            let items = match find_member(&json, "defects") {
                Some(JsonValue::Array(a)) => a,
                _ => {
                    return Err(MISSING_DEFECTS.to_string());
                },
            };
            let ghost iv = items@;
            let mut defects: Vec<DetectedDefect> = Vec::new();
            let mut i: usize = 0;
            while i < items.len()
                invariant
                    i <= items.len(),
                    iv == items@,
                    defects@.map_values(|d: DetectedDefect| d@) == defects_from(iv.take(i as int)),
                decreases items.len() - i,
            {
                proof {
                    assert(iv.take(i + 1).drop_last() == iv.take(i as int));
                    assert(iv.take(i + 1).last() == iv[i as int]);
                }
                match defect_entry(&items[i]) {
                    Some(d) => {
                        let ghost before = defects@.map_values(|d: DetectedDefect| d@);
                        let ghost dv = d@;
                        defects.push(d);
                        assert(defects@.map_values(|d: DetectedDefect| d@) == before.push(dv));
                    },
                    None => {},
                }
                i = i + 1;
            }
            assert(iv.take(items.len() as int) == iv);
            let overall_quality = match string_member(&json, "overall_quality") {
                Some(q) => q,
                None => {
                    return Err(MISSING_QUALITY.to_string());
                },
            };
            let notes = string_member(&json, "notes");
            Ok(DefectReport { defects, overall_quality, notes })
        },
    }
}

/// Reads a vision model's defect report (see `parse_defect_report`); `None`
/// for a text that is not JSON and whose quotation would cut a character.
pub fn read_defect_report(response_text: &str) -> (r: Option<Result<DefectReport, String>>)
    ensures
        r is None <==> report_quote_cuts_char(response_text@),
        r matches Some(x) ==> report_result(response_text@, x),
{
    if response_text.len() > 500 && !response_text.is_char_boundary(500) {
        match read_json(response_text) {
            Err(_) => {
                return None;
            },
            Ok(_) => {},
        }
    }
    Some(parse_defect_report(response_text))
}

} // verus!
