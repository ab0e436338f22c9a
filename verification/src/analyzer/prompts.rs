//! Prompts and schemas for the defect analysis of print photos.

use vstd::prelude::*;
use crate::fixed::{fixed_chars, fixed_text};
use crate::text::{chars_eq, chars_of, push_all, push_str, string_of};

verus! {

broadcast use vstd::string::group_string_axioms;

pub const DEFECT_PROMPT_HEAD: &'static str = "Analyze this 3D print photo for defects.\n\nCurrent print settings:\n- Material: ";
pub const DEFECT_PROMPT_NOZZLE: &'static str = "\n- Nozzle temperature: ";
pub const DEFECT_PROMPT_BED: &'static str = "C\n- Bed temperature: ";
pub const DEFECT_PROMPT_RETRACTION: &'static str = "C\n- Retraction: ";
pub const DEFECT_PROMPT_FLOW: &'static str = "mm\n- Flow ratio: ";
pub const DEFECT_PROMPT_TAIL: &'static str = "\n\nIdentify any defects from this list:\n- stringing: Fine threads/wisps between parts or during travel moves\n- warping: Corners or edges lifting from the print bed\n- layer_adhesion: Weak bonds between layers, visible gaps, delamination\n- elephants_foot: First layer(s) bulging outward, wider than intended\n- under_extrusion: Gaps in walls, missing material, thin/weak layers\n- over_extrusion: Blobs, rough surfaces, material oozing, dimensional inaccuracy\n- z_banding: Horizontal lines/ridges at regular intervals on vertical surfaces\n\nFor each defect found, rate:\n- severity: 0.3=minor/cosmetic only, 0.5=noticeable but functional, 0.7=significant quality issue, 0.9=severe/print failure\n- confidence: How certain you are this defect is actually present (not lighting/angle artifact)\n\nRate overall print quality:\n- excellent: No visible defects, professional quality\n- good: Minor cosmetic issues only\n- acceptable: Some defects but functional\n- poor: Significant quality issues\n- failed: Print unusable\n\nIf no defects are visible, return an empty defects array and rate as excellent/good.\nIf image is unclear or not a 3D print, note this in the notes field.";

pub const DEFECT_SCHEMA_TEXT: &'static str = "{\n  \"type\": \"object\",\n  \"properties\": {\n    \"defects\": {\n      \"type\": \"array\",\n      \"items\": {\n        \"type\": \"object\",\n        \"properties\": {\n          \"defect_type\": {\n            \"type\": \"string\",\n            \"enum\": [\n              \"stringing\",\n              \"warping\",\n              \"layer_adhesion\",\n              \"elephants_foot\",\n              \"under_extrusion\",\n              \"over_extrusion\",\n              \"z_banding\"\n            ]\n          },\n          \"severity\": {\n            \"type\": \"number\",\n            \"description\": \"0.0-1.0 scale: 0.3=minor, 0.5=noticeable, 0.7=significant, 0.9=severe\"\n          },\n          \"confidence\": {\n            \"type\": \"number\",\n            \"description\": \"0.0-1.0 confidence in detection accuracy\"\n          }\n        },\n        \"required\": [\n          \"defect_type\",\n          \"severity\",\n          \"confidence\"\n        ],\n        \"additionalProperties\": false\n      }\n    },\n    \"overall_quality\": {\n      \"type\": \"string\",\n      \"enum\": [\n        \"excellent\",\n        \"good\",\n        \"acceptable\",\n        \"poor\",\n        \"failed\"\n      ]\n    },\n    \"notes\": {\n      \"type\": [\n        \"string\",\n        \"null\"\n      ],\n      \"description\": \"Brief observation about the print (optional)\"\n    }\n  },\n  \"required\": [\n    \"defects\",\n    \"overall_quality\",\n    \"notes\"\n  ],\n  \"additionalProperties\": false\n}";

/// The JSON schema of the defect report a vision model returns.
pub fn defect_report_schema_text() -> (r: String)
    ensures
        r@ == DEFECT_SCHEMA_TEXT@,
{
    DEFECT_SCHEMA_TEXT.to_string()
}

/// How many decimals a thousandths value needs: none for whole values, else
/// as few as show it exactly.
pub open spec fn short_places(v: int) -> nat {
    let m: int = if v < 0 { -v } else { v };
    if m % 1000 == 0 {
        0
    } else if m % 100 == 0 {
        1
    } else if m % 10 == 0 {
        2
    } else {
        3
    }
}

/// The shortest decimal text of a thousandths value ("215", "0.8", "1.05").
pub open spec fn short_text(v: int) -> Seq<char> {
    fixed_text(v, short_places(v))
}

/// Writes a thousandths value in its shortest decimal form.
pub fn short_chars(v: i64) -> (r: Vec<char>)
    ensures
        r@ == short_text(v as int),
{
    let m: u64 = if v < 0 { (-(v as i128)) as u64 } else { v as u64 };
    let places: u64 = if m % 1000 == 0 {
        0
    } else if m % 100 == 0 {
        1
    } else if m % 10 == 0 {
        2
    } else {
        3
    };
    fixed_chars(v, places)
}

/// The value of the first setting named `key`.
pub open spec fn setting(settings: Seq<(Seq<char>, i64)>, key: Seq<char>) -> Option<i64>
    decreases settings.len(),
{
    if settings.len() == 0 {
        None
    } else if settings[0].0 == key {
        Some(settings[0].1)
    } else {
        setting(settings.drop_first(), key)
    }
}

/// A setting, or a default.
pub open spec fn setting_or(settings: Seq<(Seq<char>, i64)>, key: Seq<char>, default: i64) -> i64 {
    match setting(settings, key) {
        Some(v) => v,
        None => default,
    }
}

/// The defect analysis prompt: the material and the current nozzle (default
/// 200), bed (cool plate, else hot plate, default 60), retraction (default
/// 0.8) and flow (default 1) settings, then the defect list and the rating
/// instructions.
pub open spec fn defect_prompt(settings: Seq<(Seq<char>, i64)>, material: Seq<char>) -> Seq<char> {
    let nozzle = setting_or(settings, "nozzle_temperature"@, 200000);
    let bed = match setting(settings, "cool_plate_temp"@) {
        Some(v) => v,
        None => setting_or(settings, "hot_plate_temp"@, 60000),
    };
    let retraction = setting_or(settings, "filament_retraction_length"@, 800);
    let flow = setting_or(settings, "filament_flow_ratio"@, 1000);
    DEFECT_PROMPT_HEAD@ + material + DEFECT_PROMPT_NOZZLE@ + short_text(nozzle as int)
        + DEFECT_PROMPT_BED@ + short_text(bed as int) + DEFECT_PROMPT_RETRACTION@ + short_text(
        retraction as int,
    ) + DEFECT_PROMPT_FLOW@ + short_text(flow as int) + DEFECT_PROMPT_TAIL@
}

pub(crate) fn find_setting(settings: &Vec<(String, i64)>, key: &str) -> (r: Option<i64>)
    ensures
        r == setting(settings@.map_values(|e: (String, i64)| (e.0@, e.1)), key@),
{
    let ghost sv = settings@.map_values(|e: (String, i64)| (e.0@, e.1));
    let k = chars_of(key);
    let mut i: usize = 0;
    assert(sv.skip(0) == sv);
    while i < settings.len()
        invariant
            i <= settings.len(),
            sv == settings@.map_values(|e: (String, i64)| (e.0@, e.1)),
            k@ == key@,
            setting(sv, key@) == setting(sv.skip(i as int), key@),
        decreases settings.len() - i,
    {
        proof {
            assert(sv.skip(i as int)[0] == sv[i as int]);
            assert(sv.skip(i as int).drop_first() == sv.skip(i + 1));
        }
        if chars_eq(&chars_of(settings[i].0.as_str()), &k) {
            return Some(settings[i].1);
        }
        i = i + 1;
    }
    None
}

/// Builds the defect analysis prompt (see `defect_prompt`); settings are in
/// thousandths of their unit.
pub fn build_defect_analysis_prompt(current_settings: &Vec<(String, i64)>, material_type: &str) -> (r:
    String)
    ensures
        r@ == defect_prompt(
            current_settings@.map_values(|e: (String, i64)| (e.0@, e.1)),
            material_type@,
        ),
{
    let nozzle = match find_setting(current_settings, "nozzle_temperature") {
        Some(v) => v,
        None => 200000,
    };
    let bed = match find_setting(current_settings, "cool_plate_temp") {
        Some(v) => v,
        None => match find_setting(current_settings, "hot_plate_temp") {
            Some(v) => v,
            None => 60000,
        },
    };
    let retraction = match find_setting(current_settings, "filament_retraction_length") {
        Some(v) => v,
        None => 800,
    };
    let flow = match find_setting(current_settings, "filament_flow_ratio") {
        Some(v) => v,
        None => 1000,
    };
    let mut out: Vec<char> = Vec::new();
    push_str(&mut out, DEFECT_PROMPT_HEAD);
    push_str(&mut out, material_type);
    push_str(&mut out, DEFECT_PROMPT_NOZZLE);
    push_all(&mut out, &short_chars(nozzle));
    push_str(&mut out, DEFECT_PROMPT_BED);
    push_all(&mut out, &short_chars(bed));
    push_str(&mut out, DEFECT_PROMPT_RETRACTION);
    push_all(&mut out, &short_chars(retraction));
    push_str(&mut out, DEFECT_PROMPT_FLOW);
    push_all(&mut out, &short_chars(flow));
    push_str(&mut out, DEFECT_PROMPT_TAIL);
    string_of(&out)
}

} // verus!
