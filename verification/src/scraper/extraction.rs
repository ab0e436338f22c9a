//! Reading a language model's answer into filament specifications.

use vstd::prelude::*;
use crate::fixed::{parse_milli, parse_milli_spec};
use crate::scraper::html_extractor::{json_parse_of, member, read_json, str_member, JsonValue};
use crate::scraper::search::byte_len;
use crate::scraper::types::FilamentSpecs;
use crate::text::{
    chars_of, ends_with_seq, opt_view, push_str, starts_with_seq, string_of, trim,
    trim_chars, trim_end,
};

verus! {

broadcast use vstd::string::group_string_axioms;

/// A code fence.
pub open spec fn fence() -> Seq<char> {
    seq!['`', '`', '`']
}

/// The answer without a surrounding markdown code fence: trimmed; when it
/// starts with a fence, the first line (the fence and its language tag) and
/// a closing fence are removed and the rest is trimmed again.
pub open spec fn unfenced(text: Seq<char>) -> Seq<char> {
    let t = trim(text);
    if starts_with_seq(t, fence()) {
        let after = if t.contains('\n') {
            t.skip(crate::scraper::web_search::first_occurrence(t, seq!['\n']) + 1)
        } else {
            t
        };
        let c = trim_end(after);
        if ends_with_seq(c, fence()) {
            trim(c.take(c.len() - 3))
        } else {
            c
        }
    } else {
        t
    }
}

fn trim_end_chars(v: &Vec<char>) -> (r: Vec<char>)
    ensures
        r@ == trim_end(v@),
{
    let n = v.len();
    let mut b: usize = n;
    while b > 0 && crate::text::is_whitespace(v[b - 1])
        invariant
            b <= n,
            n == v.len(),
            forall|k: int| b <= k < n ==> crate::text::is_ws(#[trigger] v@[k]),
        decreases b,
    {
        b = b - 1;
    }
    proof {
        crate::text::lemma_trail_ws(v@, (n - b) as int);
    }
    crate::text::sub_chars(v, 0, b)
}

/// Strips a markdown code fence from a model's answer (see `unfenced`).
pub fn strip_markdown_json(text: &str) -> (r: String)
    ensures
        r@ == unfenced(text@),
{
    let t = trim_chars(&chars_of(text));
    let f = vec!['`', '`', '`'];
    assert(f@ == fence());
    if crate::text::starts_with(&t, &f) {
        let nl = vec!['\n'];
        assert(nl@ == seq!['\n']);
        let after = match find_first(&t, &nl) {
            Some(pos) => {
                let n = t.len();
                crate::text::sub_chars(&t, pos + 1, n)
            },
            None => crate::text::sub_chars(&t, 0, t.len()),
        };
        proof {
            if t@.contains('\n') {
                assert(after@ == t@.skip(crate::scraper::web_search::first_occurrence(t@, seq!['\n']) + 1));
            } else {
                assert(after@ == t@);
            }
        }
        let c = trim_end_chars(&after);
        if crate::text::ends_with(&c, &f) {
            let k = c.len() - 3;
            let head = crate::text::sub_chars(&c, 0, k);
            assert(head@ == c@.take(c@.len() - 3));
            string_of(&trim_chars(&head))
        } else {
            string_of(&c)
        }
    } else {
        string_of(&t)
    }
}

fn find_first(s: &Vec<char>, t: &Vec<char>) -> (r: Option<usize>)
    requires
        t@ == seq!['\n'],
    ensures
        match r {
            Some(i) => s@.contains('\n') && i == crate::scraper::web_search::first_occurrence(s@, t@)
                && i < s@.len(),
            None => !s@.contains('\n'),
        },
{
    match crate::text::find_seq(s, t) {
        Some(i) => {
            proof {
                let c = crate::scraper::web_search::first_occurrence(s@, t@);
                assert(crate::text::occurs_at(s@, t@, i as int));
                assert(s@[i as int] == '\n') by {
                    assert(s@.subrange(i as int, i + 1)[0] == s@[i as int]);
                }
                assert(crate::text::occurs_at(s@, t@, c) && forall|k: int| 0 <= k < c ==> !crate::text::occurs_at(s@, t@, k));
                if c < i {
                    assert(!crate::text::occurs_at(s@, t@, c));
                } else if i < c {
                    assert(!crate::text::occurs_at(s@, t@, i as int));
                }
            }
            Some(i)
        },
        None => {
            proof {
                if s@.contains('\n') {
                    let k = choose|k: int| 0 <= k < s@.len() && s@[k] == '\n';
                    assert(s@.subrange(k, k + 1) =~= t@);
                    assert(crate::text::occurs_at(s@, t@, k));
                }
            }
            None
        },
    }
}

// ---------------------------------------------------------------------------
// Mapping the answer's JSON
// ---------------------------------------------------------------------------

/// The member `key` when it is a number holding an unsigned 64-bit integer.
pub open spec fn u64_member(v: JsonValue, key: Seq<char>) -> Option<u64> {
    match member(v, key) {
        Some(JsonValue::Number(u, _)) => u,
        _ => None,
    }
}

/// The member `key` when it is a number, in thousandths (its decimal text
/// read as `parse_milli_spec` reads it).
pub open spec fn milli_member(v: JsonValue, key: Seq<char>) -> Option<i64> {
    match member(v, key) {
        Some(JsonValue::Number(_, t)) => parse_milli_spec(t@),
        _ => None,
    }
}

/// An unsigned value cast to 16 bits.
pub open spec fn as_u16(o: Option<u64>) -> Option<u16> {
    match o {
        Some(x) => Some(x as u16),
        None => None,
    }
}

/// An unsigned value cast to 8 bits.
pub open spec fn as_u8(o: Option<u64>) -> Option<u8> {
    match o {
        Some(x) => Some(x as u8),
        None => None,
    }
}

/// The specs a model's JSON answer gives: each schema field from the member
/// of that name (integers cast to their field's width), the name defaulting
/// to the filament name, the confidence to 0, no diameter unless given.
pub open spec fn mapped_response(r: FilamentSpecs, v: JsonValue, filament_name: Seq<char>) -> bool {
    &&& r.name@ == match str_member(v, "name"@) {
        Some(n) => n,
        None => filament_name,
    }
    &&& Some(r.brand@) == str_member(v, "brand"@)
    &&& Some(r.material@) == str_member(v, "material"@)
    &&& r.nozzle_temp_min == as_u16(u64_member(v, "nozzle_temp_min"@))
    &&& r.nozzle_temp_max == as_u16(u64_member(v, "nozzle_temp_max"@))
    &&& r.bed_temp_min == as_u16(u64_member(v, "bed_temp_min"@))
    &&& r.bed_temp_max == as_u16(u64_member(v, "bed_temp_max"@))
    &&& r.nozzle_temperature == as_u16(u64_member(v, "nozzle_temperature"@))
    &&& r.nozzle_temperature_initial_layer == as_u16(u64_member(v, "nozzle_temperature_initial_layer"@))
    &&& r.hot_plate_temp == as_u16(u64_member(v, "hot_plate_temp"@))
    &&& r.hot_plate_temp_initial_layer == as_u16(u64_member(v, "hot_plate_temp_initial_layer"@))
    &&& r.cool_plate_temp == as_u16(u64_member(v, "cool_plate_temp"@))
    &&& r.cool_plate_temp_initial_layer == as_u16(u64_member(v, "cool_plate_temp_initial_layer"@))
    &&& r.eng_plate_temp == as_u16(u64_member(v, "eng_plate_temp"@))
    &&& r.eng_plate_temp_initial_layer == as_u16(u64_member(v, "eng_plate_temp_initial_layer"@))
    &&& r.textured_plate_temp == as_u16(u64_member(v, "textured_plate_temp"@))
    &&& r.textured_plate_temp_initial_layer == as_u16(u64_member(v, "textured_plate_temp_initial_layer"@))
    &&& r.slow_down_min_speed == as_u16(u64_member(v, "slow_down_min_speed"@))
    &&& r.retraction_speed_mm_s == as_u16(u64_member(v, "retraction_speed_mm_s"@))
    &&& r.deretraction_speed_mm_s == as_u16(u64_member(v, "deretraction_speed_mm_s"@))
    &&& r.bridge_speed == as_u16(u64_member(v, "bridge_speed"@))
    &&& r.temperature_vitrification == as_u16(u64_member(v, "temperature_vitrification"@))
    &&& r.max_speed_mm_s == as_u16(u64_member(v, "max_speed_mm_s"@))
    &&& r.fan_min_speed == as_u8(u64_member(v, "fan_min_speed"@))
    &&& r.fan_max_speed == as_u8(u64_member(v, "fan_max_speed"@))
    &&& r.overhang_fan_speed == as_u8(u64_member(v, "overhang_fan_speed"@))
    &&& r.close_fan_the_first_x_layers == as_u8(u64_member(v, "close_fan_the_first_x_layers"@))
    &&& r.additional_cooling_fan_speed == as_u8(u64_member(v, "additional_cooling_fan_speed"@))
    &&& r.fan_speed_percent == as_u8(u64_member(v, "fan_speed_percent"@))
    &&& r.slow_down_layer_time == as_u8(u64_member(v, "slow_down_layer_time"@))
    &&& r.max_volumetric_speed == milli_member(v, "max_volumetric_speed"@)
    &&& r.filament_flow_ratio == milli_member(v, "filament_flow_ratio"@)
    &&& r.pressure_advance == milli_member(v, "pressure_advance"@)
    &&& r.retraction_distance_mm == milli_member(v, "retraction_distance_mm"@)
    &&& r.density_g_cm3 == milli_member(v, "density_g_cm3"@)
    &&& r.diameter_mm == milli_member(v, "diameter_mm"@)
    &&& r.filament_cost == milli_member(v, "filament_cost"@)
    &&& r.source_url@ == match str_member(v, "source_url"@) {
        Some(u) => u,
        None => Seq::empty(),
    }
    &&& r.extraction_confidence == match milli_member(v, "confidence"@) {
        Some(c) => c,
        None => 0,
    }
}

/// The refusal of an answer without a brand.
pub const MISSING_BRAND: &'static str = "Missing 'brand' field";
/// The refusal of an answer without a material.
pub const MISSING_MATERIAL: &'static str = "Missing 'material' field";

fn member_str(v: &JsonValue, key: &str) -> (r: Option<String>)
    ensures
        opt_view(r) == str_member(*v, key@),
{
    match crate::scraper::html_extractor::find_member(v, key) {
        Some(JsonValue::Str(s)) => Some(s.clone()),
        _ => None,
    }
}

fn member_u64(v: &JsonValue, key: &str) -> (r: Option<u64>)
    ensures
        r == u64_member(*v, key@),
{
    match crate::scraper::html_extractor::find_member(v, key) {
        Some(JsonValue::Number(u, _)) => *u,
        _ => None,
    }
}

fn member_milli(v: &JsonValue, key: &str) -> (r: Option<i64>)
    ensures
        r == milli_member(*v, key@),
{
    match crate::scraper::html_extractor::find_member(v, key) {
        Some(JsonValue::Number(_, t)) => parse_milli(&chars_of(t.as_str())),
        _ => None,
    }
}

fn as_u16_exec(o: Option<u64>) -> (r: Option<u16>)
    ensures
        r == as_u16(o),
{
    match o {
        Some(x) => Some(x as u16),
        None => None,
    }
}

fn as_u8_exec(o: Option<u64>) -> (r: Option<u8>)
    ensures
        r == as_u8(o),
{
    match o {
        Some(x) => Some(x as u8),
        None => None,
    }
}

/// Maps a model's JSON answer to specifications (see `mapped_response`); a
/// missing brand, then a missing material, is refused.
pub fn map_response_to_specs(json: &JsonValue, filament_name: &str) -> (r: Result<FilamentSpecs, String>)
    ensures
        match r {
            Ok(s) => mapped_response(s, *json, filament_name@),
            Err(e) => if str_member(*json, "brand"@) is None {
                e@ == MISSING_BRAND@
            } else {
                str_member(*json, "material"@) is None && e@ == MISSING_MATERIAL@
            },
        },
        r is Ok <==> (str_member(*json, "brand"@) is Some && str_member(*json, "material"@) is Some),
{
    let name = match member_str(json, "name") {
        Some(n) => n,
        None => filament_name.to_string(),
    };
    let brand = match member_str(json, "brand") {
        Some(b) => b,
        None => {
            return Err(MISSING_BRAND.to_string());
        },
    };
    let material = match member_str(json, "material") {
        Some(m) => m,
        None => {
            return Err(MISSING_MATERIAL.to_string());
        },
    };
    let source_url = match member_str(json, "source_url") {
        Some(u) => u,
        None => String::new(),
    };
    let confidence = match member_milli(json, "confidence") {
        Some(c) => c,
        None => 0,
    };
    Ok(FilamentSpecs {
        name,
        brand,
        material,
        nozzle_temp_min: as_u16_exec(member_u64(json, "nozzle_temp_min")),
        nozzle_temp_max: as_u16_exec(member_u64(json, "nozzle_temp_max")),
        bed_temp_min: as_u16_exec(member_u64(json, "bed_temp_min")),
        bed_temp_max: as_u16_exec(member_u64(json, "bed_temp_max")),
        nozzle_temperature: as_u16_exec(member_u64(json, "nozzle_temperature")),
        nozzle_temperature_initial_layer: as_u16_exec(member_u64(json, "nozzle_temperature_initial_layer")),
        hot_plate_temp: as_u16_exec(member_u64(json, "hot_plate_temp")),
        hot_plate_temp_initial_layer: as_u16_exec(member_u64(json, "hot_plate_temp_initial_layer")),
        cool_plate_temp: as_u16_exec(member_u64(json, "cool_plate_temp")),
        cool_plate_temp_initial_layer: as_u16_exec(member_u64(json, "cool_plate_temp_initial_layer")),
        eng_plate_temp: as_u16_exec(member_u64(json, "eng_plate_temp")),
        eng_plate_temp_initial_layer: as_u16_exec(member_u64(json, "eng_plate_temp_initial_layer")),
        textured_plate_temp: as_u16_exec(member_u64(json, "textured_plate_temp")),
        textured_plate_temp_initial_layer: as_u16_exec(member_u64(json, "textured_plate_temp_initial_layer")),
        slow_down_min_speed: as_u16_exec(member_u64(json, "slow_down_min_speed")),
        retraction_speed_mm_s: as_u16_exec(member_u64(json, "retraction_speed_mm_s")),
        deretraction_speed_mm_s: as_u16_exec(member_u64(json, "deretraction_speed_mm_s")),
        bridge_speed: as_u16_exec(member_u64(json, "bridge_speed")),
        temperature_vitrification: as_u16_exec(member_u64(json, "temperature_vitrification")),
        max_speed_mm_s: as_u16_exec(member_u64(json, "max_speed_mm_s")),
        fan_min_speed: as_u8_exec(member_u64(json, "fan_min_speed")),
        fan_max_speed: as_u8_exec(member_u64(json, "fan_max_speed")),
        overhang_fan_speed: as_u8_exec(member_u64(json, "overhang_fan_speed")),
        close_fan_the_first_x_layers: as_u8_exec(member_u64(json, "close_fan_the_first_x_layers")),
        additional_cooling_fan_speed: as_u8_exec(member_u64(json, "additional_cooling_fan_speed")),
        fan_speed_percent: as_u8_exec(member_u64(json, "fan_speed_percent")),
        slow_down_layer_time: as_u8_exec(member_u64(json, "slow_down_layer_time")),
        max_volumetric_speed: member_milli(json, "max_volumetric_speed"),
        filament_flow_ratio: member_milli(json, "filament_flow_ratio"),
        pressure_advance: member_milli(json, "pressure_advance"),
        retraction_distance_mm: member_milli(json, "retraction_distance_mm"),
        density_g_cm3: member_milli(json, "density_g_cm3"),
        diameter_mm: member_milli(json, "diameter_mm"),
        filament_cost: member_milli(json, "filament_cost"),
        source_url,
        extraction_confidence: confidence,
    })
}

// ---------------------------------------------------------------------------
// From the answer's text
// ---------------------------------------------------------------------------

/// The answer would be cut inside a character when quoted in the parse
/// error (only then does quoting its first 500 bytes fail).
pub open spec fn quote_cuts_char(text: Seq<char>) -> bool {
    let t = unfenced(text);
    byte_len(t) > 500 && json_parse_of(t) is Err && !vstd::utf8::is_char_boundary(
        vstd::utf8::encode_utf8(t),
        500,
    )
}

/// At most the first 500 bytes of the answer, with `...` when it was cut.
pub open spec fn quoted(t: Seq<char>) -> Seq<char> {
    if byte_len(t) > 500 {
        vstd::utf8::decode_utf8(vstd::utf8::encode_utf8(t).subrange(0, 500)) + "..."@
    } else {
        t
    }
}

/// How the refusal of a page answer that is not JSON introduces the quoted
/// answer.
pub const PAGE_RAW_LABEL: &'static str = ". Raw response (first 500 chars): ";

/// How the refusal of a knowledge answer that is not JSON introduces the
/// quoted answer.
pub const KNOWLEDGE_RAW_LABEL: &'static str = ". Raw response: ";

/// What reading a page answer gives (see `answer_result`).
pub open spec fn response_result(text: Seq<char>, filament_name: Seq<char>, r: Result<FilamentSpecs, String>) -> bool {
    answer_result(text, filament_name, PAGE_RAW_LABEL@, r)
}

/// What reading an answer gives: its specs, or the refusal of an answer
/// that is not JSON (quoting the parser's error and, after `label`, the
/// start of the answer) or does not match the schema.
pub open spec fn answer_result(
    text: Seq<char>,
    filament_name: Seq<char>,
    label: Seq<char>,
    r: Result<FilamentSpecs, String>,
) -> bool {
    let t = unfenced(text);
    match json_parse_of(t) {
        Err(e) => r matches Err(m) && m@ == "Failed to parse LLM response as JSON: "@ + e + label + quoted(t),
        Ok(v) => if str_member(v, "brand"@) is Some && str_member(v, "material"@) is Some {
            r matches Ok(s) && mapped_response(s, v, filament_name)
        } else {
            r matches Err(m) && m@ == "LLM response JSON does not match FilamentSpecs schema: "@ + (
            if str_member(v, "brand"@) is None {
                MISSING_BRAND@
            } else {
                MISSING_MATERIAL@
            })
        },
    }
}

/// Reads a model's answer into specifications (see `response_result`).
pub fn parse_model_response(response_text: &str, filament_name: &str) -> (r: Result<FilamentSpecs, String>)
    requires
        !quote_cuts_char(response_text@),
    ensures
        response_result(response_text@, filament_name@, r),
{
    parse_answer(response_text, filament_name, PAGE_RAW_LABEL)
}

/// Reads a model's answer into specifications (see `answer_result`).
fn parse_answer(response_text: &str, filament_name: &str, label: &str) -> (r: Result<FilamentSpecs, String>)
    requires
        !quote_cuts_char(response_text@),
    ensures
        answer_result(response_text@, filament_name@, label@, r),
{
    let text = strip_markdown_json(response_text);
    match read_json(text.as_str()) {
        Err(e) => {
            let mut v: Vec<char> = Vec::new();
            push_str(&mut v, "Failed to parse LLM response as JSON: ");
            push_str(&mut v, e.as_str());
            push_str(&mut v, label);
            if text.as_str().len() > 500 {
                let (head, _) = text.as_str().split_at(500);
                proof {
                    let bytes = text@.len();
                    vstd::utf8::encode_utf8_decode_utf8(head@);
                    assert(vstd::utf8::encode_utf8(head@) == vstd::utf8::encode_utf8(text@).subrange(0, 500));
                }
                push_str(&mut v, head);
                push_str(&mut v, "...");
                assert(head@ == vstd::utf8::decode_utf8(vstd::utf8::encode_utf8(text@).subrange(0, 500)));
                assert(quoted(text@) == head@ + "..."@);
            } else {
                push_str(&mut v, text.as_str());
                assert(quoted(text@) == text@);
            }
            assert(json_parse_of(text@) == Err::<JsonValue, Seq<char>>(e@));
            let m = string_of(&v);
            assert(m@ == "Failed to parse LLM response as JSON: "@ + e@ + label@ + quoted(text@));
            assert(text@ == unfenced(response_text@));
            Err(m)
        },
        Ok(json) => match map_response_to_specs(&json, filament_name) {
            Ok(s) => {
                assert(json_parse_of(text@) == Ok::<JsonValue, Seq<char>>(json));
                Ok(s)
            },
            Err(e) => {
                let mut v: Vec<char> = Vec::new();
                push_str(&mut v, "LLM response JSON does not match FilamentSpecs schema: ");
                push_str(&mut v, e.as_str());
                assert(json_parse_of(text@) == Ok::<JsonValue, Seq<char>>(json));
                Err(string_of(&v))
            },
        },
    }
}

/// Reads a model's answer (see `parse_model_response`); `None` for an
/// answer whose quotation would cut a character.
pub fn read_model_response(response_text: &str, filament_name: &str) -> (r: Option<Result<FilamentSpecs, String>>)
    ensures
        r is None <==> quote_cuts_char(response_text@),
        r matches Some(x) ==> response_result(response_text@, filament_name@, x),
{
    let text = strip_markdown_json(response_text);
    if text.as_str().len() > 500 && !text.as_str().is_char_boundary(500) {
        match read_json(text.as_str()) {
            Err(_) => {
                return None;
            },
            Ok(_) => {},
        }
    }
    Some(parse_model_response(response_text, filament_name))
}

/// The source recorded for specifications a model gave from its own
/// knowledge.
pub const KNOWLEDGE_SOURCE: &'static str = "ai-knowledge";

/// What reading a model's answer from its own knowledge gives: as
/// `answer_result` (the quoted answer introduced by `KNOWLEDGE_RAW_LABEL`),
/// with the specifications' source marked as `KNOWLEDGE_SOURCE`.
pub open spec fn knowledge_result(text: Seq<char>, filament_name: Seq<char>, r: Result<FilamentSpecs, String>) -> bool {
    match r {
        Err(m) => answer_result(text, filament_name, KNOWLEDGE_RAW_LABEL@, Err(m)),
        Ok(s) => s.source_url@ == KNOWLEDGE_SOURCE@ && exists|s0: FilamentSpecs|
            answer_result(text, filament_name, KNOWLEDGE_RAW_LABEL@, Ok(s0)) && s == (FilamentSpecs {
                source_url: s.source_url,
                ..s0
            }),
    }
}

/// Reads a model's answer from its own knowledge (see `knowledge_result`);
/// `None` for an answer whose quotation would cut a character.
pub fn read_knowledge_response(response_text: &str, filament_name: &str) -> (r: Option<Result<FilamentSpecs, String>>)
    ensures
        r is None <==> quote_cuts_char(response_text@),
        r matches Some(x) ==> knowledge_result(response_text@, filament_name@, x),
{
    let text = strip_markdown_json(response_text);
    if text.as_str().len() > 500 && !text.as_str().is_char_boundary(500) {
        match read_json(text.as_str()) {
            Err(_) => {
                return None;
            },
            Ok(_) => {},
        }
    }
    match parse_answer(response_text, filament_name, KNOWLEDGE_RAW_LABEL) {
        Err(e) => Some(Err(e)),
        Ok(s) => {
            let ghost s0 = s;
            let mut k = s;
            k.source_url = KNOWLEDGE_SOURCE.to_string();
            proof {
                assert(k == (FilamentSpecs { source_url: k.source_url, ..s0 }));
            }
            Some(Ok(k))
        },
    }
}

} // verus!
