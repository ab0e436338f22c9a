//! Print analysis: request and result data, and display helpers.

use vstd::prelude::*;
use crate::fixed::fixed_chars;
use crate::history::AppliedChange;
use crate::fixed::{parse_milli, parse_milli_spec};
use crate::mapper::types::{EvaluationResult, Recommendation, RecommendationView};
use crate::profile::types::{string_array_view, with_entry, ArrayItem, Entries};
use crate::profile::types::{lookup, FilamentProfile, ItemView, ProfileValue, ValueView};
use crate::text::{chars_of, contains_seq, contains_str, eq_str, push_all, push_str, replace_char,
    replace_chars, string_of, uppercase, uppercase_of};

verus! {

broadcast use vstd::string::group_string_axioms;

/// Request payload for print analysis.
#[derive(Debug)]
pub struct AnalyzeRequest {
    /// Base64-encoded image data.
    pub image_base64: String,
    /// Path to the profile to use for context.
    pub profile_path: Option<String>,
    /// Material type override.
    pub material_type: Option<String>,
}

/// Request payload for applying recommendations.
#[derive(Debug)]
pub struct ApplyRequest {
    /// Path to the profile to modify.
    pub profile_path: String,
    /// Session ID from the analysis response.
    pub session_id: i64,
    /// Parameters to apply.
    pub selected_parameters: Vec<String>,
}

/// Result of applying recommendations.
#[derive(Debug)]
pub struct ApplyResult {
    /// Path to the backup created before modification.
    pub backup_path: String,
    /// Changes that were applied.
    pub changes_applied: Vec<AppliedChange>,
    /// Path to the modified profile.
    pub profile_path: String,
}

/// Full analysis response: the defect report, the recommendations and
/// conflicts, the current values used (in thousandths) and the material.
#[derive(Debug, Clone)]
pub struct AnalyzeResponse {
    /// Defects found by the vision model.
    pub defect_report: crate::analyzer::vision::DefectReport,
    /// Parameter recommendations of the rule engine.
    pub recommendations: Vec<RecommendationDisplay>,
    /// Conflicts among the recommendations.
    pub conflicts: Vec<crate::mapper::types::Conflict>,
    /// Current profile values used for the analysis.
    pub current_values: Vec<(String, i64)>,
    /// Material type used for safe-range enforcement.
    pub material_type: String,
    /// Session of the apply flow, when history recording succeeded.
    pub session_id: Option<i64>,
}

/// Display label and unit of the parameters the analysis can change; other
/// parameters are labelled by their name with `_` read as a space and have
/// no unit.
pub open spec fn display_info(param: Seq<char>) -> (Seq<char>, Seq<char>) {
    if param == "nozzle_temperature"@ {
        ("Nozzle Temperature"@, "C"@)
    } else if param == "nozzle_temperature_initial_layer"@ {
        ("Initial Layer Nozzle Temp"@, "C"@)
    } else if param == "cool_plate_temp"@ {
        ("Bed Temperature (Cool Plate)"@, "C"@)
    } else if param == "hot_plate_temp"@ {
        ("Bed Temperature (Hot Plate)"@, "C"@)
    } else if param == "textured_plate_temp"@ {
        ("Bed Temperature (Textured)"@, "C"@)
    } else if param == "filament_retraction_length"@ {
        ("Retraction Length"@, "mm"@)
    } else if param == "filament_retraction_speed"@ {
        ("Retraction Speed"@, "mm/s"@)
    } else if param == "filament_flow_ratio"@ {
        ("Flow Ratio"@, ""@)
    } else if param == "pressure_advance"@ {
        ("Pressure Advance"@, ""@)
    } else if param == "fan_min_speed"@ {
        ("Min Fan Speed"@, "%"@)
    } else if param == "fan_max_speed"@ {
        ("Max Fan Speed"@, "%"@)
    } else if param == "overhang_fan_speed"@ {
        ("Overhang Fan Speed"@, "%"@)
    } else {
        (replace_char(param, '_', ' '), ""@)
    }
}

fn pair(a: &str, b: &str) -> (r: (String, String))
    ensures
        r.0@ == a@,
        r.1@ == b@,
{
    (a.to_string(), b.to_string())
}

/// Display label and unit for a parameter (see `display_info`).
pub fn parameter_display_info(param: &str) -> (r: (String, String))
    ensures
        (r.0@, r.1@) == display_info(param@),
{
    let p = chars_of(param);
    if eq_str(&p, "nozzle_temperature") {
        pair("Nozzle Temperature", "C")
    } else if eq_str(&p, "nozzle_temperature_initial_layer") {
        pair("Initial Layer Nozzle Temp", "C")
    } else if eq_str(&p, "cool_plate_temp") {
        pair("Bed Temperature (Cool Plate)", "C")
    } else if eq_str(&p, "hot_plate_temp") {
        pair("Bed Temperature (Hot Plate)", "C")
    } else if eq_str(&p, "textured_plate_temp") {
        pair("Bed Temperature (Textured)", "C")
    } else if eq_str(&p, "filament_retraction_length") {
        pair("Retraction Length", "mm")
    } else if eq_str(&p, "filament_retraction_speed") {
        pair("Retraction Speed", "mm/s")
    } else if eq_str(&p, "filament_flow_ratio") {
        pair("Flow Ratio", "")
    } else if eq_str(&p, "pressure_advance") {
        pair("Pressure Advance", "")
    } else if eq_str(&p, "fan_min_speed") {
        pair("Min Fan Speed", "%")
    } else if eq_str(&p, "fan_max_speed") {
        pair("Max Fan Speed", "%")
    } else if eq_str(&p, "overhang_fan_speed") {
        pair("Overhang Fan Speed", "%")
    } else {
        let l = replace_chars(&p, '_', ' ');
        (string_of(&l), "".to_string())
    }
}

/// Text of a change from `current` to `recommended` (both in thousandths)
/// for a parameter shown with `unit`: whole numbers for degrees, percent
/// and speeds, one decimal for millimetres, two decimals without unit
/// otherwise.
pub open spec fn change_text(current: i64, recommended: i64, unit: Seq<char>) -> Seq<char> {
    if unit == "C"@ || unit == "%"@ || unit == "mm/s"@ {
        crate::fixed::fixed_text(current as int, 0) + " -> "@ + crate::fixed::fixed_text(
            recommended as int,
            0,
        ) + unit
    } else if unit == "mm"@ {
        crate::fixed::fixed_text(current as int, 1) + " -> "@ + crate::fixed::fixed_text(
            recommended as int,
            1,
        ) + unit
    } else {
        crate::fixed::fixed_text(current as int, 2) + " -> "@ + crate::fixed::fixed_text(
            recommended as int,
            2,
        )
    }
}

/// Format a value change for display (see `change_text`).
pub fn format_change(current: i64, recommended: i64, unit: &str) -> (r: String)
    ensures
        r@ == change_text(current, recommended, unit@),
{
    let u = chars_of(unit);
    let mut v: Vec<char> = Vec::new();
    if eq_str(&u, "C") || eq_str(&u, "%") || eq_str(&u, "mm/s") {
        push_all(&mut v, &fixed_chars(current, 0));
        push_str(&mut v, " -> ");
        push_all(&mut v, &fixed_chars(recommended, 0));
        push_str(&mut v, unit);
    } else if eq_str(&u, "mm") {
        push_all(&mut v, &fixed_chars(current, 1));
        push_str(&mut v, " -> ");
        push_all(&mut v, &fixed_chars(recommended, 1));
        push_str(&mut v, unit);
    } else {
        push_all(&mut v, &fixed_chars(current, 2));
        push_str(&mut v, " -> ");
        push_all(&mut v, &fixed_chars(recommended, 2));
    }
    string_of(&v)
}

/// Decimals with which a parameter is written into a profile: none for
/// temperatures, fan percentages and retraction speed, one for retraction
/// length, two for flow ratio and pressure advance; `None` for the others,
/// which are written in full.
pub open spec fn profile_places(parameter: Seq<char>) -> Option<nat> {
    if parameter == "nozzle_temperature"@ || parameter == "cool_plate_temp"@ || parameter
        == "hot_plate_temp"@ || parameter == "textured_plate_temp"@ || parameter
        == "nozzle_temperature_initial_layer"@ || parameter == "fan_min_speed"@ || parameter
        == "fan_max_speed"@ || parameter == "overhang_fan_speed"@ || parameter
        == "filament_retraction_speed"@ {
        Some(0)
    } else if parameter == "filament_retraction_length"@ {
        Some(1)
    } else if parameter == "filament_flow_ratio"@ || parameter == "pressure_advance"@ {
        Some(2)
    } else {
        None
    }
}

/// Format a value (thousandths) for a Bambu Studio profile field: with the
/// parameter's decimals (see `profile_places`), or in full.
pub fn format_value_for_profile(value: i64, parameter: &str) -> (r: String)
    ensures
        r@ == match profile_places(parameter@) {
            Some(p) => crate::fixed::fixed_text(value as int, p),
            None => crate::scraper::validation::milli_text(value as int),
        },
{
    let p = chars_of(parameter);
    let v = if eq_str(&p, "nozzle_temperature") || eq_str(&p, "cool_plate_temp") || eq_str(
        &p,
        "hot_plate_temp",
    ) || eq_str(&p, "textured_plate_temp") || eq_str(&p, "nozzle_temperature_initial_layer")
        || eq_str(&p, "fan_min_speed") || eq_str(&p, "fan_max_speed") || eq_str(
        &p,
        "overhang_fan_speed",
    ) || eq_str(&p, "filament_retraction_speed") {
        fixed_chars(value, 0)
    } else if eq_str(&p, "filament_retraction_length") {
        fixed_chars(value, 1)
    } else if eq_str(&p, "filament_flow_ratio") || eq_str(&p, "pressure_advance") {
        fixed_chars(value, 2)
    } else {
        crate::scraper::validation::milli_chars(value)
    };
    string_of(&v)
}

/// Material keywords recognised in an `inherits` value, in the order tried.
pub open spec fn inherit_materials() -> Seq<Seq<char>> {
    seq!["PLA"@, "PETG"@, "ABS"@, "ASA"@, "TPU"@, "PA"@, "PC"@, "PVA"@, "HIPS"@]
}

/// The first keyword found in the uppercased text.
pub open spec fn first_material_in(upper: Seq<char>, ms: Seq<Seq<char>>) -> Option<Seq<char>>
    decreases ms.len(),
{
    if ms.len() == 0 {
        None
    } else if contains_seq(upper, ms[0]) {
        Some(ms[0])
    } else {
        first_material_in(upper, ms.drop_first())
    }
}

/// Material type of a profile: its `filament_type` (first string of an
/// array, or the string itself), else the first keyword of PLA, PETG, ABS,
/// ASA, TPU, PA, PC, PVA, HIPS found in its uppercased `inherits`, else PLA.
pub open spec fn material_of_profile(es: crate::profile::types::Entries) -> Seq<char> {
    let from_type: Option<Seq<char>> = match lookup(es, "filament_type"@) {
        Some(ValueView::Array(items)) => if items.len() > 0 && items[0] is Str {
            Some(items[0]->Str_0)
        } else {
            None
        },
        Some(ValueView::Str(s)) => Some(s),
        _ => None,
    };
    match from_type {
        Some(t) => t,
        None => match lookup(es, "inherits"@) {
            Some(ValueView::Str(s)) => match first_material_in(uppercase_of(s), inherit_materials()) {
                Some(m) => m,
                None => "PLA"@,
            },
            _ => "PLA"@,
        },
    }
}

/// Detect the material type of a profile (see `material_of_profile`).
pub fn detect_material_type(profile: &FilamentProfile) -> (r: String)
    ensures
        r@ == material_of_profile(profile@),
{
    match profile.get("filament_type") {
        Some(ProfileValue::Array(items)) => {
            if items.len() > 0 {
                match &items[0] {
                    crate::profile::types::ArrayItem::Str(s) => {
                        proof {
                            assert(items@.map_values(|x: crate::profile::types::ArrayItem| x@)[0]
                                == ItemView::Str(s@));
                        }
                        return s.clone();
                    },
                    _ => {
                        proof {
                            assert(!(items@.map_values(|x: crate::profile::types::ArrayItem| x@)[0] is Str));
                        }
                    },
                }
            }
        },
        Some(ProfileValue::Str(s)) => {
            return s.clone();
        },
        _ => {},
    }
    match profile.get("inherits") {
        Some(ProfileValue::Str(s)) => {
            let upper = uppercase(&chars_of(s.as_str()));
            let ms = vec!["PLA", "PETG", "ABS", "ASA", "TPU", "PA", "PC", "PVA", "HIPS"];
            let ghost all = inherit_materials();
            let mut i: usize = 0;
            proof {
                assert(all.skip(0) == all);
                assert(material_of_profile(profile@) == match first_material_in(upper@, all) {
                    Some(m) => m,
                    None => "PLA"@,
                });
            }
            while i < ms.len()
                invariant
                    i <= ms@.len() == 9,
                    all.len() == 9,
                    forall|k: int| 0 <= k < 9 ==> (#[trigger] ms@[k])@ == all[k],
                    all == inherit_materials(),
                    material_of_profile(profile@) == match first_material_in(upper@, all) {
                        Some(m) => m,
                        None => "PLA"@,
                    },
                    first_material_in(upper@, all) == first_material_in(upper@, all.skip(i as int)),
                decreases ms.len() - i,
            {
                proof {
                    assert(all.skip(i as int)[0] == all[i as int]);
                    assert(all.skip(i as int).drop_first() =~= all.skip(i + 1));
                }
                if contains_str(&upper, ms[i]) {
                    return ms[i].to_string();
                }
                i = i + 1;
            }
            proof {
                assert(all.skip(9).len() == 0);
            }
            "PLA".to_string()
        },
        _ => "PLA".to_string(),
    }
}

/// Parameter values assumed when no profile is loaded, in thousandths:
/// nozzle 200, cool plate 60, retraction 0.8, flow ratio 1.0, fans 35 and 70.
pub fn default_profile_values() -> (r: Vec<(String, i64)>)
    ensures
        r@.map_values(|e: (String, i64)| (e.0@, e.1)) == seq![
            ("nozzle_temperature"@, 200000i64),
            ("cool_plate_temp"@, 60000i64),
            ("filament_retraction_length"@, 800i64),
            ("filament_flow_ratio"@, 1000i64),
            ("fan_min_speed"@, 35000i64),
            ("fan_max_speed"@, 70000i64),
        ],
{
    let r = vec![
        ("nozzle_temperature".to_string(), 200000i64),
        ("cool_plate_temp".to_string(), 60000i64),
        ("filament_retraction_length".to_string(), 800i64),
        ("filament_flow_ratio".to_string(), 1000i64),
        ("fan_min_speed".to_string(), 35000i64),
        ("fan_max_speed".to_string(), 70000i64),
    ];
    proof {
        assert(r@.map_values(|e: (String, i64)| (e.0@, e.1)) =~= seq![
            ("nozzle_temperature"@, 200000i64),
            ("cool_plate_temp"@, 60000i64),
            ("filament_retraction_length"@, 800i64),
            ("filament_flow_ratio"@, 1000i64),
            ("fan_min_speed"@, 35000i64),
            ("fan_max_speed"@, 70000i64),
        ]);
    }
    r
}

// ---------------------------------------------------------------------------
// Profile values for the analysis
// ---------------------------------------------------------------------------

/// The parameters read from a profile for the analysis, in this order.
pub open spec fn analysis_parameters() -> Seq<Seq<char>> {
    seq![
        "nozzle_temperature"@,
        "nozzle_temperature_initial_layer"@,
        "cool_plate_temp"@,
        "hot_plate_temp"@,
        "textured_plate_temp"@,
        "filament_retraction_length"@,
        "filament_retraction_speed"@,
        "filament_flow_ratio"@,
        "pressure_advance"@,
        "fan_min_speed"@,
        "fan_max_speed"@,
        "overhang_fan_speed"@,
    ]
}

/// The number a field holds, in thousandths: the first element of an array
/// when it is a string, a string, or a scalar, read as a decimal.
pub open spec fn field_number(v: ValueView) -> Option<i64> {
    match v {
        ValueView::Array(items) => if items.len() > 0 {
            match items[0] {
                ItemView::Str(t) => parse_milli_spec(t),
                ItemView::Json(_) => None,
            }
        } else {
            None
        },
        ValueView::Str(t) => parse_milli_spec(t),
        ValueView::Scalar(t) => parse_milli_spec(t),
        _ => None,
    }
}

/// The values of the given parameters that a profile holds as numbers, in
/// the parameters' order.
pub open spec fn profile_numbers(es: Entries, params: Seq<Seq<char>>) -> Seq<(Seq<char>, i64)>
    decreases params.len(),
{
    if params.len() == 0 {
        Seq::empty()
    } else {
        let t = profile_numbers(es, params.drop_last());
        match lookup(es, params.last()) {
            Some(v) => match field_number(v) {
                Some(x) => t.push((params.last(), x)),
                None => t,
            },
            None => t,
        }
    }
}

/// The number a field holds, if any.
fn field_value(v: &ProfileValue) -> (r: Option<i64>)
    ensures
        r == field_number(v@),
{
    match v {
        ProfileValue::Array(items) => {
            if items.len() > 0 {
                match &items[0] {
                    ArrayItem::Str(t) => parse_milli(&chars_of(t.as_str())),
                    ArrayItem::Json(_) => None,
                }
            } else {
                None
            }
        },
        ProfileValue::Str(t) => parse_milli(&chars_of(t.as_str())),
        ProfileValue::Scalar(t) => parse_milli(&chars_of(t.as_str())),
        _ => None,
    }
}

/// Reads the analysis parameters a profile holds as numbers (see
/// `profile_numbers`), in thousandths.
pub fn extract_profile_values(profile: &FilamentProfile) -> (r: Vec<(String, i64)>)
    ensures
        r@.map_values(|e: (String, i64)| (e.0@, e.1)) == profile_numbers(profile@, analysis_parameters()),
{
    let names: Vec<&str> = vec![
        "nozzle_temperature",
        "nozzle_temperature_initial_layer",
        "cool_plate_temp",
        "hot_plate_temp",
        "textured_plate_temp",
        "filament_retraction_length",
        "filament_retraction_speed",
        "filament_flow_ratio",
        "pressure_advance",
        "fan_min_speed",
        "fan_max_speed",
        "overhang_fan_speed",
    ];
    let ghost ps = analysis_parameters();
    assert(names@.map_values(|n: &str| n@) =~= ps);
    let mut out: Vec<(String, i64)> = Vec::new();
    let mut i: usize = 0;
    while i < names.len()
        invariant
            i <= names.len(),
            names@.map_values(|n: &str| n@) == ps,
            out@.map_values(|e: (String, i64)| (e.0@, e.1)) == profile_numbers(profile@, ps.take(i as int)),
        decreases names.len() - i,
    {
        proof {
            assert(ps.take(i + 1).drop_last() == ps.take(i as int));
            assert(ps.take(i + 1).last() == names@[i as int]@);
        }
        match profile.get(names[i]) {
            Some(v) => match field_value(v) {
                Some(x) => {
                    let ghost before = out@.map_values(|e: (String, i64)| (e.0@, e.1));
                    out.push((names[i].to_string(), x));
                    assert(out@.map_values(|e: (String, i64)| (e.0@, e.1)) == before.push((names@[i as int]@, x)));
                },
                None => {},
            },
            None => {},
        }
        i = i + 1;
    }
    assert(ps.take(names.len() as int) == ps);
    out
}

// ---------------------------------------------------------------------------
// Recommendations for display
// ---------------------------------------------------------------------------

/// A recommendation with display-friendly formatting; values in thousandths.
#[derive(Debug, Clone)]
pub struct RecommendationDisplay {
    /// The defect that triggered it.
    pub defect: String,
    /// Parameter name.
    pub parameter: String,
    /// Display label of the parameter.
    pub parameter_label: String,
    /// Current value.
    pub current_value: i64,
    /// Recommended value.
    pub recommended_value: i64,
    /// The change as text (e.g. "215 -> 210C").
    pub change_display: String,
    /// Unit of the parameter.
    pub unit: String,
    /// Priority (1 is most important).
    pub priority: u8,
    /// Why the change helps.
    pub rationale: String,
    /// Whether the value was clamped to the safe range.
    pub was_clamped: bool,
}

/// The display of a recommendation: its fields, the parameter's label and
/// unit, and the change as text.
pub open spec fn shows_recommendation(d: RecommendationDisplay, r: RecommendationView) -> bool {
    let (label, unit) = display_info(r.parameter);
    &&& d.defect@ == r.defect
    &&& d.parameter@ == r.parameter
    &&& d.parameter_label@ == label
    &&& d.current_value as int == r.current
    &&& d.recommended_value as int == r.recommended
    &&& d.change_display@ == change_text(d.current_value, d.recommended_value, unit)
    &&& d.unit@ == unit
    &&& d.priority == r.priority
    &&& d.rationale@ == r.rationale
    &&& d.was_clamped == r.was_clamped
}

/// The display of one recommendation.
fn display_recommendation(rec: &Recommendation) -> (d: RecommendationDisplay)
    ensures
        shows_recommendation(d, rec@),
{
    let (label, unit) = parameter_display_info(rec.parameter.as_str());
    let change = format_change(rec.current_value, rec.recommended_value, unit.as_str());
    RecommendationDisplay {
        defect: rec.defect.clone(),
        parameter: rec.parameter.clone(),
        parameter_label: label,
        current_value: rec.current_value,
        recommended_value: rec.recommended_value,
        change_display: change,
        unit,
        priority: rec.priority,
        rationale: rec.rationale.clone(),
        was_clamped: rec.was_clamped,
    }
}

/// Formats an evaluation's recommendations for display, in order.
pub fn format_recommendations(evaluation: &EvaluationResult, current_values: &Vec<(String, i64)>) -> (r: Vec<
    RecommendationDisplay,
>)
    ensures
        r.len() == evaluation.recommendations.len(),
        forall|i: int| 0 <= i < r.len() ==> shows_recommendation(#[trigger] r@[i], evaluation.recommendations@[i]@),
{
    let recs = &evaluation.recommendations;
    let mut out: Vec<RecommendationDisplay> = Vec::new();
    let mut i: usize = 0;
    while i < recs.len()
        invariant
            i <= recs.len(),
            out.len() == i,
            forall|j: int| 0 <= j < i ==> shows_recommendation(#[trigger] out@[j], recs@[j]@),
        decreases recs.len() - i,
    {
        out.push(display_recommendation(&recs[i]));
        i = i + 1;
    }
    out
}

// ---------------------------------------------------------------------------
// Applying selected recommendations
// ---------------------------------------------------------------------------

/// The text a recommended value is written with into a profile.
pub open spec fn profile_value_text(value: i64, parameter: Seq<char>) -> Seq<char> {
    match profile_places(parameter) {
        Some(p) => crate::fixed::fixed_text(value as int, p),
        None => crate::scraper::validation::milli_text(value as int),
    }
}

/// The profile entries after writing each selected recommendation, in
/// order, as a one-element array holding its value's text.
pub open spec fn with_selected(es: Entries, recs: Seq<RecommendationDisplay>, selected: Seq<Seq<char>>) -> Entries
    decreases recs.len(),
{
    if recs.len() == 0 {
        es
    } else {
        let e = with_selected(es, recs.drop_last(), selected);
        let r = recs.last();
        if selected.contains(r.parameter@) {
            with_entry(e, r.parameter@, string_array_view(seq![profile_value_text(r.recommended_value, r.parameter@)]))
        } else {
            e
        }
    }
}

/// The changes made by writing the selected recommendations: parameter,
/// old value and new value, in order.
pub open spec fn selected_changes(recs: Seq<RecommendationDisplay>, selected: Seq<Seq<char>>) -> Seq<(Seq<char>, i64, i64)>
    decreases recs.len(),
{
    if recs.len() == 0 {
        Seq::empty()
    } else {
        let t = selected_changes(recs.drop_last(), selected);
        let r = recs.last();
        if selected.contains(r.parameter@) {
            t.push((r.parameter@, r.current_value, r.recommended_value))
        } else {
            t
        }
    }
}

/// Whether a list of names holds `p`.
fn is_selected(selected: &Vec<String>, p: &str) -> (b: bool)
    ensures
        b == selected@.map_values(|s: String| s@).contains(p@),
{
    let ghost sv = selected@.map_values(|s: String| s@);
    let pc = chars_of(p);
    let mut i: usize = 0;
    while i < selected.len()
        invariant
            i <= selected.len(),
            sv == selected@.map_values(|s: String| s@),
            pc@ == p@,
            forall|j: int| 0 <= j < i ==> sv[j] != p@,
        decreases selected.len() - i,
    {
        if crate::text::chars_eq(&chars_of(selected[i].as_str()), &pc) {
            assert(sv[i as int] == p@);
            return true;
        }
        i = i + 1;
    }
    false
}

/// Writes the selected recommendations into a profile (see `with_selected`)
/// and returns the changes made (see `selected_changes`).
pub fn apply_selected_recommendations(
    profile: &mut FilamentProfile,
    recommendations: &Vec<RecommendationDisplay>,
    selected_parameters: &Vec<String>,
) -> (changes: Vec<AppliedChange>)
    ensures
        final(profile)@ == with_selected(
            old(profile)@,
            recommendations@,
            selected_parameters@.map_values(|s: String| s@),
        ),
        changes@.map_values(|c: AppliedChange| (c.parameter@, c.old_value, c.new_value)) == selected_changes(
            recommendations@,
            selected_parameters@.map_values(|s: String| s@),
        ),
{
    let ghost start = profile@;
    let ghost sel = selected_parameters@.map_values(|s: String| s@);
    let mut changes: Vec<AppliedChange> = Vec::new();
    let mut i: usize = 0;
    while i < recommendations.len()
        invariant
            i <= recommendations.len(),
            sel == selected_parameters@.map_values(|s: String| s@),
            profile@ == with_selected(start, recommendations@.take(i as int), sel),
            changes@.map_values(|c: AppliedChange| (c.parameter@, c.old_value, c.new_value)) == selected_changes(
                recommendations@.take(i as int),
                sel,
            ),
        decreases recommendations.len() - i,
    {
        proof {
            assert(recommendations@.take(i + 1).drop_last() == recommendations@.take(i as int));
            assert(recommendations@.take(i + 1).last() == recommendations@[i as int]);
        }
        let rec = &recommendations[i];
        if is_selected(selected_parameters, rec.parameter.as_str()) {
            let text = format_value_for_profile(rec.recommended_value, rec.parameter.as_str());
            let mut vals: Vec<String> = Vec::new();
            vals.push(text);
            proof {
                assert(vals@.map_values(|s: String| s@) =~= seq![profile_value_text(rec.recommended_value, rec.parameter@)]);
            }
            profile.set_string_array(rec.parameter.as_str(), vals);
            let ghost before = changes@.map_values(|c: AppliedChange| (c.parameter@, c.old_value, c.new_value));
            let c = AppliedChange {
                parameter: rec.parameter.clone(),
                old_value: rec.current_value,
                new_value: rec.recommended_value,
            };
            changes.push(c);
            assert(changes@.map_values(|c: AppliedChange| (c.parameter@, c.old_value, c.new_value)) == before.push(
                (rec.parameter@, rec.current_value, rec.recommended_value),
            ));
        }
        i = i + 1;
    }
    assert(recommendations@.take(recommendations.len() as int) == recommendations@);
    changes
}

} // verus!
