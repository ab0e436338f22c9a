//! Filament profile commands: summaries, diffs between profiles and the
//! decisions taken while generating and installing a profile.

use vstd::prelude::*;
use crate::profile::types::{
    ArrayItem, Entries, FilamentProfile, ItemView, ProfileValue, ValueView, keys_distinct, lookup,
    string_array_view, with_entry,
};
use crate::profile::generator::{applicable, applied, apply_specs_to_profile};
use crate::fixed::{fixed_chars, fixed_text};
use crate::scraper::catalog::capitalized;
use crate::scraper::types::FilamentSpecs;
use crate::text::{
    chars_eq, chars_of, contains_seq, decimal, decimal_chars, opt_view, trim, trim_chars, contains_str, eq_str, join, join_with, push_all, push_str,
    replace_char, replace_chars, split_on, split_on_char, string_of, uppercase, lowercase, lowercase_of,
};

verus! {

broadcast use vstd::string::group_string_axioms;

/// Summary information for a filament profile (used in list views).
#[derive(Debug, Clone)]
pub struct ProfileInfo {
    pub name: String,
    pub filament_type: Option<String>,
    pub filament_id: Option<String>,
    pub path: String,
    pub is_user_profile: bool,
}

/// Serializable metadata from a `.info` companion file.
#[derive(Debug, Clone)]
pub struct ProfileMetadataInfo {
    pub sync_info: String,
    pub user_id: String,
    pub setting_id: String,
    pub base_id: String,
    pub updated_time: u64,
}

/// Detailed information for a single filament profile.
#[derive(Debug, Clone)]
pub struct ProfileDetail {
    pub name: Option<String>,
    pub filament_type: Option<String>,
    pub filament_id: Option<String>,
    pub inherits: Option<String>,
    pub field_count: usize,
    pub nozzle_temperature: Option<Vec<String>>,
    pub bed_temperature: Option<Vec<String>>,
    pub compatible_printers: Option<Vec<String>>,
    pub metadata: Option<ProfileMetadataInfo>,
    pub raw_json: String,
}

/// Summary of which scraped specs were applied to the profile.
#[derive(Debug, Clone)]
pub struct GeneratedSpecs {
    pub nozzle_temp: Option<String>,
    pub bed_temp: Option<String>,
    pub fan_speed: Option<String>,
    pub retraction: Option<String>,
}

/// A single field difference between two profiles.
#[derive(Debug, Clone)]
pub struct ProfileDiff {
    pub key: String,
    pub label: String,
    pub base_value: String,
    pub new_value: String,
}

/// Result from profile generation (preview step, no files written).
#[derive(Debug, Clone)]
pub struct GenerateResult {
    pub profile_name: String,
    pub profile_json: String,
    pub metadata_info: String,
    pub filename: String,
    pub field_count: usize,
    pub base_profile_used: String,
    pub specs_applied: GeneratedSpecs,
    pub diffs: Vec<ProfileDiff>,
    pub warnings: Vec<String>,
    pub bambu_studio_running: bool,
}

/// Result from profile installation (files written to disk).
#[derive(Debug, Clone)]
pub struct InstallResult {
    pub installed_path: String,
    pub profile_name: String,
    pub bambu_studio_was_running: bool,
}

/// A group of diffs for a single category.
#[derive(Debug, Clone)]
pub struct DiffCategory {
    pub category: String,
    pub diffs: Vec<ProfileDiff>,
}

/// Result from comparing two profiles.
#[derive(Debug, Clone)]
pub struct CompareResult {
    pub profile_a_name: String,
    pub profile_b_name: String,
    pub categories: Vec<DiffCategory>,
    pub total_fields: usize,
    pub changed_fields: usize,
}

/// A base profile match from Bambu Studio system profiles.
#[derive(Debug, Clone)]
pub struct BaseProfileMatch {
    pub name: String,
    pub path: String,
    pub filament_type: Option<String>,
}

/// Abstract view of a diff.
pub ghost struct DiffView {
    pub key: Seq<char>,
    pub label: Seq<char>,
    pub base_value: Seq<char>,
    pub new_value: Seq<char>,
}

impl View for ProfileDiff {
    type V = DiffView;

    open spec fn view(&self) -> DiffView {
        DiffView {
            key: self.key@,
            label: self.label@,
            base_value: self.base_value@,
            new_value: self.new_value@,
        }
    }
}

// ---------------------------------------------------------------------------
// Categories and labels
// ---------------------------------------------------------------------------

/// The display category of a profile key: the first group whose words
/// occur in the key.
pub open spec fn category_of(k: Seq<char>) -> Seq<char> {
    if contains_seq(k, "temperature"@) || contains_seq(k, "temp"@) {
        "Temperature"@
    } else if contains_seq(k, "speed"@) || contains_seq(k, "flow"@) || contains_seq(k, "volumetric"@) || contains_seq(k, "acceleration"@) || contains_seq(k, "jerk"@) {
        "Speed & Flow"@
    } else if contains_seq(k, "fan"@) || contains_seq(k, "cool"@) || contains_seq(k, "slow_down"@) {
        "Cooling & Fan"@
    } else if contains_seq(k, "retract"@) || contains_seq(k, "wipe"@) || contains_seq(k, "z_hop"@) {
        "Retraction"@
    } else if contains_seq(k, "density"@) || contains_seq(k, "diameter"@) || contains_seq(k, "cost"@) || contains_seq(k, "vitrification"@) || contains_seq(k, "shrinkage"@) {
        "Physical Properties"@
    } else if contains_seq(k, "name"@) || contains_seq(k, "id"@) || contains_seq(k, "version"@) || contains_seq(k, "inherits"@) || contains_seq(k, "from"@) || contains_seq(k, "vendor"@) || contains_seq(k, "type"@) || contains_seq(k, "compatible"@) || contains_seq(k, "setting"@) || contains_seq(k, "instantiation"@) {
        "Identity & Metadata"@
    } else {
        "Other"@
    }
}

/// Maps a Bambu Studio profile key to a display category.
pub fn key_to_category(key: &str) -> (r: &'static str)
    ensures
        r@ == category_of(key@),
{
    let k = chars_of(key);
    if contains_str(&k, "temperature") || contains_str(&k, "temp") {
        "Temperature"
    } else if contains_str(&k, "speed") || contains_str(&k, "flow") || contains_str(&k, "volumetric") || contains_str(&k, "acceleration") || contains_str(&k, "jerk") {
        "Speed & Flow"
    } else if contains_str(&k, "fan") || contains_str(&k, "cool") || contains_str(&k, "slow_down") {
        "Cooling & Fan"
    } else if contains_str(&k, "retract") || contains_str(&k, "wipe") || contains_str(&k, "z_hop") {
        "Retraction"
    } else if contains_str(&k, "density") || contains_str(&k, "diameter") || contains_str(&k, "cost") || contains_str(&k, "vitrification") || contains_str(&k, "shrinkage") {
        "Physical Properties"
    } else if contains_str(&k, "name") || contains_str(&k, "id") || contains_str(&k, "version") || contains_str(&k, "inherits") || contains_str(&k, "from") || contains_str(&k, "vendor") || contains_str(&k, "type") || contains_str(&k, "compatible") || contains_str(&k, "setting") || contains_str(&k, "instantiation") {
        "Identity & Metadata"
    } else {
        "Other"
    }
}

/// A human-readable label for a snake_case key: underscores become spaces
/// and each space-separated word is capitalized.
pub open spec fn label_of(k: Seq<char>) -> Seq<char> {
    join(
        split_on(replace_char(k, '_', ' '), ' ').map_values(|w: Seq<char>| capitalized(w)),
        seq![' '],
    )
}

fn capitalize_word(w: &Vec<char>) -> (r: Vec<char>)
    ensures
        r@ == capitalized(w@),
{
    if w.len() == 0 {
        Vec::new()
    } else {
        let first = vec![w[0]];
        assert(first@ == seq![w@[0]]);
        let mut r = uppercase(&first);
        let rest = crate::text::sub_chars(w, 1, w.len());
        push_all(&mut r, &rest);
        assert(rest@ == w@.drop_first());
        r
    }
}

/// Converts a snake_case profile key to a human-readable label.
pub fn key_to_label(key: &str) -> (r: String)
    ensures
        r@ == label_of(key@),
{
    let k = chars_of(key);
    let spaced = replace_chars(&k, '_', ' ');
    let words = split_on_char(&spaced, ' ');
    let ghost ws = words@.map_values(|w: Vec<char>| w@);
    let mut out: Vec<Vec<char>> = Vec::new();
    let mut i: usize = 0;
    while i < words.len()
        invariant
            i <= words.len(),
            ws == words@.map_values(|w: Vec<char>| w@),
            out@.map_values(|w: Vec<char>| w@) == ws.take(i as int).map_values(
                |w: Seq<char>| capitalized(w),
            ),
        decreases words.len() - i,
    {
        let c = capitalize_word(&words[i]);
        let ghost before = out@.map_values(|w: Vec<char>| w@);
        out.push(c);
        proof {
            assert(out@.map_values(|w: Vec<char>| w@) == before.push(capitalized(ws[i as int])));
            assert(ws.take(i + 1) == ws.take(i as int).push(ws[i as int]));
            assert(ws.take(i + 1).map_values(|w: Seq<char>| capitalized(w)) == ws.take(
                i as int,
            ).map_values(|w: Seq<char>| capitalized(w)).push(capitalized(ws[i as int])));
        }
        i = i + 1;
    }
    proof {
        assert(ws.take(words.len() as int) == ws);
    }
    let sep = vec![' '];
    assert(sep@ == seq![' ']);
    let joined = join_with(&out, &sep);
    string_of(&joined)
}

// ---------------------------------------------------------------------------
// Displaying values
// ---------------------------------------------------------------------------

/// The display text of a field value: strings as they are, numbers and
/// booleans by their JSON text, arrays by their first element, `--` for a
/// missing or null value, `[]` for an empty array and `{...}` for an object.
pub open spec fn display_of(v: Option<ValueView>) -> Seq<char> {
    match v {
        None => "--"@,
        Some(ValueView::Null) => "--"@,
        Some(ValueView::Str(s)) => s,
        Some(ValueView::Scalar(t)) => t,
        Some(ValueView::Object(_)) => "{...}"@,
        Some(ValueView::Array(items)) => if items.len() == 0 {
            "[]"@
        } else {
            match items[0] {
                ItemView::Str(s) => s,
                ItemView::Json(t) => t,
            }
        },
    }
}

/// Converts a field value to a human-readable display string.
pub fn value_to_display(value: Option<&ProfileValue>) -> (r: String)
    ensures
        r@ == display_of(match value {
            Some(v) => Some(v@),
            None => None,
        }),
{
    match value {
        None => "--".to_string(),
        Some(ProfileValue::Null) => "--".to_string(),
        Some(ProfileValue::Str(s)) => s.clone(),
        Some(ProfileValue::Scalar(t)) => t.clone(),
        Some(ProfileValue::Object(_)) => "{...}".to_string(),
        Some(ProfileValue::Array(items)) => {
            if items.len() == 0 {
                "[]".to_string()
            } else {
                match &items[0] {
                    ArrayItem::Str(s) => s.clone(),
                    ArrayItem::Json(t) => t.clone(),
                }
            }
        },
    }
}

// ---------------------------------------------------------------------------
// Diffs between a base profile and a generated one
// ---------------------------------------------------------------------------

/// Identity and metadata keys, which always differ and are not settings.
pub open spec fn skipped_key(k: Seq<char>) -> bool {
    k == "name"@
        || k == "filament_id"@
        || k == "filament_settings_id"@
        || k == "setting_id"@
        || k == "from"@
        || k == "inherits"@
        || k == "instantiation"@
        || k == "compatible_printers"@
        || k == "compatible_printers_condition"@
        || k == "filament_vendor"@
        || k == "filament_type"@
        || k == "version"@
}

fn is_skipped_key(k: &Vec<char>) -> (b: bool)
    ensures
        b == skipped_key(k@),
{
    eq_str(k, "name")
        || eq_str(k, "filament_id")
        || eq_str(k, "filament_settings_id")
        || eq_str(k, "setting_id")
        || eq_str(k, "from")
        || eq_str(k, "inherits")
        || eq_str(k, "instantiation")
        || eq_str(k, "compatible_printers")
        || eq_str(k, "compatible_printers_condition")
        || eq_str(k, "filament_vendor")
        || eq_str(k, "filament_type")
        || eq_str(k, "version")
}

/// The diff of one generated entry against the base, if it is reported:
/// not an identity key, and displayed differently.
pub open spec fn entry_diff(base: Entries, k: Seq<char>, v: ValueView) -> Option<DiffView> {
    let b = display_of(lookup(base, k));
    let n = display_of(Some(v));
    if skipped_key(k) || b == n {
        None
    } else {
        Some(DiffView { key: k, label: label_of(k), base_value: b, new_value: n })
    }
}

/// The reported diffs, in the generated profile's key order.
pub open spec fn diff_candidates(base: Entries, generated: Entries) -> Seq<DiffView>
    decreases generated.len(),
{
    if generated.len() == 0 {
        Seq::empty()
    } else {
        let prev = diff_candidates(base, generated.drop_last());
        match entry_diff(base, generated.last().0, generated.last().1) {
            Some(d) => prev.push(d),
            None => prev,
        }
    }
}

/// Lexicographic order of character sequences by code point, which is the
/// order of `String` (UTF-8 byte order preserves code point order).
pub open spec fn text_lt(a: Seq<char>, b: Seq<char>) -> bool
    decreases a.len(),
{
    if a.len() == 0 {
        b.len() > 0
    } else if b.len() == 0 {
        false
    } else if a[0] != b[0] {
        (a[0] as u32) < (b[0] as u32)
    } else {
        text_lt(a.drop_first(), b.drop_first())
    }
}

/// Where a stable sort places a new element with label `l` into `s`: after
/// every element whose label is not greater than `l`, scanning from the end.
pub open spec fn label_slot(s: Seq<DiffView>, l: Seq<char>) -> int
    decreases s.len(),
{
    if s.len() == 0 {
        0
    } else if text_lt(l, s.last().label) {
        label_slot(s.drop_last(), l)
    } else {
        s.len() as int
    }
}

/// The diffs stably sorted by label (equal labels keep their order).
pub open spec fn sorted_by_label(s: Seq<DiffView>) -> Seq<DiffView>
    decreases s.len(),
{
    if s.len() == 0 {
        s
    } else {
        let sorted = sorted_by_label(s.drop_last());
        sorted.insert(label_slot(sorted, s.last().label), s.last())
    }
}

/// Whether `a` sorts before `b`.
pub(crate) fn text_less(a: &Vec<char>, b: &Vec<char>) -> (r: bool)
    ensures
        r == text_lt(a@, b@),
{
    let mut i: usize = 0;
    assert(a@.skip(0) == a@ && b@.skip(0) == b@);
    while i < a.len() && i < b.len()
        invariant
            i <= a.len(),
            i <= b.len(),
            forall|k: int| 0 <= k < i ==> a@[k] == b@[k],
            text_lt(a@, b@) == text_lt(a@.skip(i as int), b@.skip(i as int)),
        decreases a.len() - i,
    {
        proof {
            assert(a@.skip(i as int)[0] == a@[i as int]);
            assert(b@.skip(i as int)[0] == b@[i as int]);
            assert(a@.skip(i as int).drop_first() == a@.skip(i + 1));
            assert(b@.skip(i as int).drop_first() == b@.skip(i + 1));
        }
        if a[i] != b[i] {
            return (a[i] as u32) < (b[i] as u32);
        }
        i = i + 1;
    }
    i == a.len() && i < b.len()
}

fn label_chars(d: &ProfileDiff) -> (r: Vec<char>)
    ensures
        r@ == d.label@,
{
    chars_of(d.label.as_str())
}

/// Inserts `d` at its stable sorted position.
fn insert_by_label(sorted: &mut Vec<ProfileDiff>, d: ProfileDiff)
    ensures
        final(sorted)@.map_values(|x: ProfileDiff| x@) == old(sorted)@.map_values(
            |x: ProfileDiff| x@,
        ).insert(label_slot(old(sorted)@.map_values(|x: ProfileDiff| x@), d.label@), d@),
{
    let ghost s = sorted@.map_values(|x: ProfileDiff| x@);
    let l = label_chars(&d);
    let mut p: usize = sorted.len();
    assert(s.take(p as int) == s);
    while p > 0 && text_less(&l, &label_chars(&sorted[p - 1]))
        invariant
            p <= sorted.len(),
            s == sorted@.map_values(|x: ProfileDiff| x@),
            l@ == d.label@,
            label_slot(s, l@) == label_slot(s.take(p as int), l@),
        decreases p,
    {
        proof {
            assert(s.take(p as int).last() == s[p - 1]);
            assert(s.take(p as int).drop_last() == s.take(p - 1));
        }
        p = p - 1;
    }
    proof {
        if p > 0 {
            assert(s.take(p as int).last() == s[p - 1]);
            assert(!text_lt(l@, s.take(p as int).last().label));
        }
        assert(label_slot(s.take(p as int), l@) == p);
    }
    sorted.insert(p, d);
    proof {
        assert(sorted@.map_values(|x: ProfileDiff| x@) =~= s.insert(p as int, d@));
    }
}

/// Compares a generated profile with its base, field by field: the settings
/// whose display differs, skipping identity fields, sorted by label.
pub fn compute_profile_diffs(base: &FilamentProfile, generated: &FilamentProfile) -> (r: Vec<
    ProfileDiff,
>)
    ensures
        r@.map_values(|x: ProfileDiff| x@) == sorted_by_label(diff_candidates(base@, generated@)),
{
    let entries = generated.raw();
    let ghost es = entries@.map_values(|e: (String, ProfileValue)| (e.0@, e.1@));
    let mut diffs: Vec<ProfileDiff> = Vec::new();
    let mut i: usize = 0;
    while i < entries.len()
        invariant
            i <= entries.len(),
            es == entries@.map_values(|e: (String, ProfileValue)| (e.0@, e.1@)),
            es == generated@,
            diffs@.map_values(|x: ProfileDiff| x@) == sorted_by_label(
                diff_candidates(base@, es.take(i as int)),
            ),
        decreases entries.len() - i,
    {
        let key = &entries[i].0;
        let value = &entries[i].1;
        let k = chars_of(key.as_str());
        let ghost prev = diff_candidates(base@, es.take(i as int));
        let ghost cand = entry_diff(base@, key@, value@);
        proof {
            assert(es.take(i + 1).drop_last() == es.take(i as int));
            assert(es.take(i + 1).last() == es[i as int]);
            assert(es[i as int] == (key@, value@));
            assert(diff_candidates(base@, es.take(i + 1)) == match cand {
                Some(d) => prev.push(d),
                None => prev,
            });
        }
        if !is_skipped_key(&k) {
            let base_str = value_to_display(base.get(key.as_str()));
            let gen_str = value_to_display(Some(value));
            let bs = chars_of(base_str.as_str());
            let gs = chars_of(gen_str.as_str());
            if !chars_eq(&bs, &gs) {
                let d = ProfileDiff {
                    key: key.clone(),
                    label: key_to_label(key.as_str()),
                    base_value: base_str,
                    new_value: gen_str,
                };
                proof {
                    assert(cand == Some(d@));
                    assert(prev.push(d@).drop_last() == prev);
                }
                insert_by_label(&mut diffs, d);
            }
        }
        i = i + 1;
    }
    proof {
        assert(es.take(entries.len() as int) == es);
    }
    diffs
}

// ---------------------------------------------------------------------------
// Generation and installation decisions
// ---------------------------------------------------------------------------

/// `"{min}-{max}C"`, or `"{max}C"` without a minimum; nothing without a maximum.
pub open spec fn range_text(min: Option<u16>, max: Option<u16>) -> Option<Seq<char>> {
    match max {
        None => None,
        Some(mx) => Some(match min {
            Some(mn) => decimal(mn as nat) + "-"@ + decimal(mx as nat) + "C"@,
            None => decimal(mx as nat) + "C"@,
        }),
    }
}

/// `"{d:.1}mm @ {s}mm/s"`, or `"{d:.1}mm"` without a speed; nothing without
/// a distance (in thousandths of a millimetre).
pub open spec fn retraction_text(dist: Option<i64>, speed: Option<u16>) -> Option<Seq<char>> {
    match dist {
        None => None,
        Some(d) => Some(match speed {
            Some(sp) => fixed_text(d as int, 1) + "mm @ "@ + decimal(sp as nat) + "mm/s"@,
            None => fixed_text(d as int, 1) + "mm"@,
        }),
    }
}

fn range_string(min: Option<u16>, max: Option<u16>) -> (r: Option<String>)
    ensures
        opt_view(r) == range_text(min, max),
{
    match max {
        None => None,
        Some(mx) => {
            let mut v: Vec<char> = Vec::new();
            match min {
                Some(mn) => {
                    push_all(&mut v, &decimal_chars(mn as u64));
                    push_str(&mut v, "-");
                },
                None => {},
            }
            push_all(&mut v, &decimal_chars(mx as u64));
            push_str(&mut v, "C");
            proof {
                assert(v@ == range_text(min, max).unwrap());
            }
            Some(string_of(&v))
        },
    }
}

/// Summary of the scraped specs applied to a generated profile, for display.
pub fn specs_summary(specs: &FilamentSpecs) -> (r: GeneratedSpecs)
    ensures
        opt_view(r.nozzle_temp) == range_text(specs.nozzle_temp_min, specs.nozzle_temp_max),
        opt_view(r.bed_temp) == range_text(specs.bed_temp_min, specs.bed_temp_max),
        opt_view(r.fan_speed) == match specs.fan_speed_percent {
            Some(f) => Some(decimal(f as nat) + "%"@),
            None => None,
        },
        opt_view(r.retraction) == retraction_text(
            specs.retraction_distance_mm,
            specs.retraction_speed_mm_s,
        ),
{
    let nozzle_temp = range_string(specs.nozzle_temp_min, specs.nozzle_temp_max);
    let bed_temp = range_string(specs.bed_temp_min, specs.bed_temp_max);
    let fan_speed = match specs.fan_speed_percent {
        Some(f) => {
            let mut v = decimal_chars(f as u64);
            push_str(&mut v, "%");
            Some(string_of(&v))
        },
        None => None,
    };
    let retraction = match specs.retraction_distance_mm {
        Some(d) => {
            let mut v = fixed_chars(d, 1);
            match specs.retraction_speed_mm_s {
                Some(sp) => {
                    push_str(&mut v, "mm @ ");
                    push_all(&mut v, &decimal_chars(sp as u64));
                    push_str(&mut v, "mm/s");
                },
                None => {
                    push_str(&mut v, "mm");
                },
            }
            Some(string_of(&v))
        },
        None => None,
    };
    GeneratedSpecs { nozzle_temp, bed_temp, fan_speed, retraction }
}

/// The warning shown when Bambu Studio is running during generation.
pub const RUNNING_WARNING: &'static str =
    "Bambu Studio is running. Profile changes may not take effect until BS is restarted.";

/// The refusal of an install while Bambu Studio is running without `force`.
pub const RUNNING_REFUSAL: &'static str =
    "Bambu Studio is running. Use force=true to install anyway, but restart BS to see changes.";

/// Warnings for a generated profile: one when Bambu Studio is running.
pub fn generation_warnings(bambu_studio_running: bool) -> (r: Vec<String>)
    ensures
        bambu_studio_running ==> r@.len() == 1 && r@[0]@ == RUNNING_WARNING@,
        !bambu_studio_running ==> r@.len() == 0,
{
    let mut w: Vec<String> = Vec::new();
    if bambu_studio_running {
        w.push(RUNNING_WARNING.to_string());
    }
    w
}

/// Whether an install may proceed: refused while Bambu Studio is running,
/// unless forced.
pub fn check_install_allowed(bambu_studio_running: bool, force: bool) -> (r: Result<(), String>)
    ensures
        r is Err <==> (bambu_studio_running && !force),
        r matches Err(e) ==> e@ == RUNNING_REFUSAL@,
{
    if bambu_studio_running && !force {
        Err(RUNNING_REFUSAL.to_string())
    } else {
        Ok(())
    }
}

/// The base profile path chosen by the user: the trimmed path, when it is
/// not empty.
pub open spec fn chosen_base_path(p: Option<Seq<char>>) -> Option<Seq<char>> {
    match p {
        Some(s) => if trim(s).len() > 0 {
            Some(trim(s))
        } else {
            None
        },
        None => None,
    }
}

/// Picks the user's base profile path, if one was given (see
/// `chosen_base_path`); otherwise the default base for the material is used.
pub fn selected_base_path(base_profile_path: &Option<String>) -> (r: Option<String>)
    ensures
        opt_view(r) == chosen_base_path(opt_view(*base_profile_path)),
{
    match base_profile_path {
        Some(p) => {
            let t = trim_chars(&chars_of(p.as_str()));
            if t.len() > 0 {
                Some(string_of(&t))
            } else {
                None
            }
        },
        None => None,
    }
}

// ---------------------------------------------------------------------------
// Side-by-side comparison of two profiles
// ---------------------------------------------------------------------------

/// Where `k` goes in a sorted list: after every key not greater than it.
pub open spec fn key_slot(s: Seq<Seq<char>>, k: Seq<char>) -> int
    decreases s.len(),
{
    if s.len() == 0 {
        0
    } else if text_lt(k, s.last()) {
        key_slot(s.drop_last(), k)
    } else {
        s.len() as int
    }
}

/// Adds a key to a sorted set of keys.
pub open spec fn insert_key(s: Seq<Seq<char>>, k: Seq<char>) -> Seq<Seq<char>> {
    if s.contains(k) {
        s
    } else {
        s.insert(key_slot(s, k), k)
    }
}

/// Adds the keys of some entries, in order, to a sorted set of keys.
pub open spec fn add_keys(s: Seq<Seq<char>>, es: Entries) -> Seq<Seq<char>>
    decreases es.len(),
{
    if es.len() == 0 {
        s
    } else {
        insert_key(add_keys(s, es.drop_last()), es.last().0)
    }
}

/// The keys of both profiles, each once, in sorted order.
pub open spec fn union_keys(a: Entries, b: Entries) -> Seq<Seq<char>> {
    add_keys(add_keys(Seq::empty(), a), b)
}

/// The comparison row of one key.
pub open spec fn key_diff(a: Entries, b: Entries, k: Seq<char>) -> DiffView {
    DiffView {
        key: k,
        label: label_of(k),
        base_value: display_of(lookup(a, k)),
        new_value: display_of(lookup(b, k)),
    }
}

/// The two profiles display the key's value differently.
pub open spec fn differs(a: Entries, b: Entries, k: Seq<char>) -> bool {
    display_of(lookup(a, k)) != display_of(lookup(b, k))
}

/// The rows of one category, in key order: keys of that category that
/// differ, or all of them when identical ones are shown.
pub open spec fn category_rows(
    a: Entries,
    b: Entries,
    keys: Seq<Seq<char>>,
    show_identical: bool,
    c: Seq<char>,
) -> Seq<DiffView>
    decreases keys.len(),
{
    if keys.len() == 0 {
        Seq::empty()
    } else {
        let prev = category_rows(a, b, keys.drop_last(), show_identical, c);
        let k = keys.last();
        if category_of(k) == c && (show_identical || differs(a, b, k)) {
            prev.push(key_diff(a, b, k))
        } else {
            prev
        }
    }
}

/// Number of keys the two profiles display differently.
pub open spec fn changed_count(a: Entries, b: Entries, keys: Seq<Seq<char>>) -> nat
    decreases keys.len(),
{
    if keys.len() == 0 {
        0
    } else {
        changed_count(a, b, keys.drop_last()) + if differs(a, b, keys.last()) {
            1nat
        } else {
            0nat
        }
    }
}

/// The category names in sorted order.
pub open spec fn category_names() -> Seq<Seq<char>> {
    seq![
        "Cooling & Fan"@,
        "Identity & Metadata"@,
        "Other"@,
        "Physical Properties"@,
        "Retraction"@,
        "Speed & Flow"@,
        "Temperature"@,
    ]
}

/// The non-empty categories among `names`, in order, with their rows.
pub open spec fn category_groups(
    a: Entries,
    b: Entries,
    keys: Seq<Seq<char>>,
    show_identical: bool,
    names: Seq<Seq<char>>,
) -> Seq<(Seq<char>, Seq<DiffView>)>
    decreases names.len(),
{
    if names.len() == 0 {
        Seq::empty()
    } else {
        let prev = category_groups(a, b, keys, show_identical, names.drop_last());
        let rows = category_rows(a, b, keys, show_identical, names.last());
        if rows.len() > 0 {
            prev.push((names.last(), rows))
        } else {
            prev
        }
    }
}

/// The view of a category group.
pub open spec fn group_view(g: DiffCategory) -> (Seq<char>, Seq<DiffView>) {
    (g.category@, g.diffs@.map_values(|x: ProfileDiff| x@))
}

fn contains_key(s: &Vec<Vec<char>>, k: &Vec<char>) -> (b: bool)
    ensures
        b == s@.map_values(|x: Vec<char>| x@).contains(k@),
{
    let ghost sv = s@.map_values(|x: Vec<char>| x@);
    let mut i: usize = 0;
    while i < s.len()
        invariant
            i <= s.len(),
            sv == s@.map_values(|x: Vec<char>| x@),
            forall|j: int| 0 <= j < i ==> sv[j] != k@,
        decreases s.len() - i,
    {
        if chars_eq(&s[i], k) {
            assert(sv[i as int] == k@);
            return true;
        }
        i = i + 1;
    }
    false
}

fn add_key(s: &mut Vec<Vec<char>>, k: Vec<char>)
    ensures
        final(s)@.map_values(|x: Vec<char>| x@) == insert_key(
            old(s)@.map_values(|x: Vec<char>| x@),
            k@,
        ),
{
    let ghost sv = s@.map_values(|x: Vec<char>| x@);
    if contains_key(s, &k) {
        return;
    }
    let mut p: usize = s.len();
    assert(sv.take(p as int) == sv);
    while p > 0 && text_less(&k, &s[p - 1])
        invariant
            p <= s.len(),
            sv == s@.map_values(|x: Vec<char>| x@),
            key_slot(sv, k@) == key_slot(sv.take(p as int), k@),
        decreases p,
    {
        proof {
            assert(sv.take(p as int).last() == sv[p - 1]);
            assert(sv.take(p as int).drop_last() == sv.take(p - 1));
        }
        p = p - 1;
    }
    proof {
        if p > 0 {
            assert(sv.take(p as int).last() == sv[p - 1]);
        }
        assert(key_slot(sv.take(p as int), k@) == p);
    }
    let ghost kv = k@;
    s.insert(p, k);
    assert(s@.map_values(|x: Vec<char>| x@) =~= sv.insert(p as int, kv));
}

fn add_profile_keys(s: &mut Vec<Vec<char>>, p: &FilamentProfile)
    ensures
        final(s)@.map_values(|x: Vec<char>| x@) == add_keys(
            old(s)@.map_values(|x: Vec<char>| x@),
            p@,
        ),
{
    let entries = p.raw();
    let ghost es = entries@.map_values(|e: (String, ProfileValue)| (e.0@, e.1@));
    let ghost s0 = s@.map_values(|x: Vec<char>| x@);
    let mut i: usize = 0;
    while i < entries.len()
        invariant
            i <= entries.len(),
            es == entries@.map_values(|e: (String, ProfileValue)| (e.0@, e.1@)),
            es == p@,
            s@.map_values(|x: Vec<char>| x@) == add_keys(s0, es.take(i as int)),
        decreases entries.len() - i,
    {
        proof {
            assert(es.take(i + 1).drop_last() == es.take(i as int));
            assert(es.take(i + 1).last() == es[i as int]);
        }
        add_key(s, chars_of(entries[i].0.as_str()));
        i = i + 1;
    }
    assert(es.take(entries.len() as int) == es);
}

fn row_of(a: &FilamentProfile, b: &FilamentProfile, key: &Vec<char>) -> (r: (ProfileDiff, bool))
    ensures
        r.0@ == key_diff(a@, b@, key@),
        r.1 == differs(a@, b@, key@),
{
    let ks = string_of(key);
    let da = value_to_display(a.get(ks.as_str()));
    let db = value_to_display(b.get(ks.as_str()));
    let different = !chars_eq(&chars_of(da.as_str()), &chars_of(db.as_str()));
    (ProfileDiff { key: ks.clone(), label: key_to_label(ks.as_str()), base_value: da, new_value: db }, different)
}

fn rows_for(
    a: &FilamentProfile,
    b: &FilamentProfile,
    keys: &Vec<Vec<char>>,
    show_identical: bool,
    c: &str,
) -> (r: Vec<ProfileDiff>)
    ensures
        r@.map_values(|x: ProfileDiff| x@) == category_rows(
            a@,
            b@,
            keys@.map_values(|x: Vec<char>| x@),
            show_identical,
            c@,
        ),
{
    let ghost kv = keys@.map_values(|x: Vec<char>| x@);
    let mut rows: Vec<ProfileDiff> = Vec::new();
    let mut i: usize = 0;
    while i < keys.len()
        invariant
            i <= keys.len(),
            kv == keys@.map_values(|x: Vec<char>| x@),
            rows@.map_values(|x: ProfileDiff| x@) == category_rows(
                a@,
                b@,
                kv.take(i as int),
                show_identical,
                c@,
            ),
        decreases keys.len() - i,
    {
        proof {
            assert(kv.take(i + 1).drop_last() == kv.take(i as int));
            assert(kv.take(i + 1).last() == kv[i as int]);
        }
        let k = &keys[i];
        let cat = key_to_category(string_of(k).as_str());
        if chars_eq(&chars_of(cat), &chars_of(c)) {
            let (row, different) = row_of(a, b, k);
            if show_identical || different {
                let ghost before = rows@.map_values(|x: ProfileDiff| x@);
                rows.push(row);
                assert(rows@.map_values(|x: ProfileDiff| x@) == before.push(row@));
            }
        }
        i = i + 1;
    }
    assert(kv.take(keys.len() as int) == kv);
    rows
}

fn count_changed(a: &FilamentProfile, b: &FilamentProfile, keys: &Vec<Vec<char>>) -> (r: usize)
    ensures
        r == changed_count(a@, b@, keys@.map_values(|x: Vec<char>| x@)),
{
    let ghost kv = keys@.map_values(|x: Vec<char>| x@);
    let mut n: usize = 0;
    let mut i: usize = 0;
    while i < keys.len()
        invariant
            i <= keys.len(),
            kv == keys@.map_values(|x: Vec<char>| x@),
            n == changed_count(a@, b@, kv.take(i as int)),
            n <= i,
        decreases keys.len() - i,
    {
        proof {
            assert(kv.take(i + 1).drop_last() == kv.take(i as int));
            assert(kv.take(i + 1).last() == kv[i as int]);
        }
        let (_, different) = row_of(a, b, &keys[i]);
        if different {
            n = n + 1;
        }
        i = i + 1;
    }
    assert(kv.take(keys.len() as int) == kv);
    n
}

/// The display name of a profile in a comparison.
pub open spec fn shown_name(es: Entries) -> Seq<char> {
    match crate::profile::types::name_of(es) {
        Some(n) => n,
        None => "<unnamed>"@,
    }
}

fn name_or_unnamed(p: &FilamentProfile) -> (r: String)
    ensures
        r@ == shown_name(p@),
{
    match p.name() {
        Some(n) => n.to_string(),
        None => "<unnamed>".to_string(),
    }
}

/// Compares two profiles side by side: every key of either profile once, in
/// sorted order; the rows grouped by category (categories in sorted order,
/// empty ones left out); identical rows only when `show_identical`.
pub fn compare_profile_entries(a: &FilamentProfile, b: &FilamentProfile, show_identical: bool) -> (r:
    CompareResult)
    ensures
        r.profile_a_name@ == shown_name(a@),
        r.profile_b_name@ == shown_name(b@),
        r.total_fields == union_keys(a@, b@).len(),
        r.changed_fields == changed_count(a@, b@, union_keys(a@, b@)),
        r.categories@.map_values(|g: DiffCategory| group_view(g)) == category_groups(
            a@,
            b@,
            union_keys(a@, b@),
            show_identical,
            category_names(),
        ),
{
    let mut keys: Vec<Vec<char>> = Vec::new();
    assert(keys@.map_values(|x: Vec<char>| x@) =~= Seq::<Seq<char>>::empty());
    add_profile_keys(&mut keys, a);
    add_profile_keys(&mut keys, b);
    let ghost kv = keys@.map_values(|x: Vec<char>| x@);
    let names: [&str; 7] = [
        "Cooling & Fan",
        "Identity & Metadata",
        "Other",
        "Physical Properties",
        "Retraction",
        "Speed & Flow",
        "Temperature",
    ];
    let ghost nv = seq![
        "Cooling & Fan"@,
        "Identity & Metadata"@,
        "Other"@,
        "Physical Properties"@,
        "Retraction"@,
        "Speed & Flow"@,
        "Temperature"@,
    ];
    assert(nv == category_names());
    assert(forall|j: int| 0 <= j < 7 ==> names@[j]@ == nv[j]);
    let mut groups: Vec<DiffCategory> = Vec::new();
    let mut i: usize = 0;
    while i < 7
        invariant
            i <= 7,
            kv == keys@.map_values(|x: Vec<char>| x@),
            nv == category_names(),
            nv.len() == 7,
            forall|j: int| 0 <= j < 7 ==> names@[j]@ == nv[j],
            groups@.map_values(|g: DiffCategory| group_view(g)) == category_groups(
                a@,
                b@,
                kv,
                show_identical,
                nv.take(i as int),
            ),
        decreases 7 - i,
    {
        proof {
            assert(nv.take(i + 1).drop_last() == nv.take(i as int));
            assert(nv.take(i + 1).last() == nv[i as int]);
        }
        let rows = rows_for(a, b, &keys, show_identical, names[i]);
        if rows.len() > 0 {
            let g = DiffCategory { category: names[i].to_string(), diffs: rows };
            let ghost before = groups@.map_values(|g: DiffCategory| group_view(g));
            groups.push(g);
            assert(groups@.map_values(|g: DiffCategory| group_view(g)) == before.push(group_view(g)));
        }
        i = i + 1;
    }
    assert(nv.take(7) == nv);
    let changed = count_changed(a, b, &keys);
    CompareResult {
        profile_a_name: name_or_unnamed(a),
        profile_b_name: name_or_unnamed(b),
        categories: groups,
        total_fields: keys.len(),
        changed_fields: changed,
    }
}

// ---------------------------------------------------------------------------
// Profile lists and base profile search
// ---------------------------------------------------------------------------

/// Stable sort by a text key: each element, in order, goes after every
/// element already placed whose key is not greater than its own.
pub open spec fn stable_sorted<T>(s: Seq<T>, key: spec_fn(T) -> Seq<char>) -> Seq<T>
    decreases s.len(),
{
    if s.len() == 0 {
        s
    } else {
        let sorted = stable_sorted(s.drop_last(), key);
        sorted.insert(key_slot(sorted.map_values(key), key(s.last())), s.last())
    }
}

/// Abstract view of a base profile match: name, path and filament type.
pub open spec fn match_view(m: BaseProfileMatch) -> (Seq<char>, Seq<char>, Option<Seq<char>>) {
    (m.name@, m.path@, opt_view(m.filament_type))
}

/// Sort key of a listed profile: its lowercased name.
pub open spec fn lower_name_key(v: (Seq<char>, Seq<char>, Option<Seq<char>>)) -> Seq<char> {
    lowercase_of(v.0)
}

/// A query matches a profile by name or filament type (both lowercased);
/// with a material filter, the filament type must contain the material.
pub open spec fn base_query_match(
    name: Seq<char>,
    filament_type: Option<Seq<char>>,
    query: Seq<char>,
    material_type: Option<Seq<char>>,
) -> bool {
    let ftype = lowercase_of(match filament_type {
        Some(t) => t,
        None => Seq::empty(),
    });
    let material_ok = match material_type {
        Some(m) => contains_seq(ftype, lowercase_of(m)),
        None => true,
    };
    material_ok && (contains_seq(lowercase_of(name), lowercase_of(query)) || contains_seq(
        ftype,
        lowercase_of(query),
    ))
}

/// Whether a profile matches a base profile search.
pub fn matches_base_query(
    name: &str,
    filament_type: &Option<String>,
    query: &str,
    material_type: &Option<String>,
) -> (b: bool)
    ensures
        b == base_query_match(name@, opt_view(*filament_type), query@, opt_view(*material_type)),
{
    let empty: Vec<char> = Vec::new();
    assert(empty@ == Seq::<char>::empty());
    let ftype = match filament_type {
        Some(t) => lowercase(&chars_of(t.as_str())),
        None => lowercase(&empty),
    };
    let q = lowercase(&chars_of(query));
    let material_ok = match material_type {
        Some(m) => crate::text::contains(&ftype, &lowercase(&chars_of(m.as_str()))),
        None => true,
    };
    material_ok && (crate::text::contains(&lowercase(&chars_of(name)), &q)
        || crate::text::contains(&ftype, &q))
}

/// The matches with repeated paths removed (the first one stays).
pub open spec fn unique_paths(ms: Seq<(Seq<char>, Seq<char>, Option<Seq<char>>)>) -> Seq<
    (Seq<char>, Seq<char>, Option<Seq<char>>),
>
    decreases ms.len(),
{
    if ms.len() == 0 {
        ms
    } else {
        let prev = unique_paths(ms.drop_last());
        if exists|j: int| 0 <= j < prev.len() && prev[j].1 == ms.last().1 {
            prev
        } else {
            prev.push(ms.last())
        }
    }
}

/// The ranking of base profile matches: repeated paths removed, sorted by
/// lowercased name, at most twenty.
pub open spec fn ranked_matches(ms: Seq<(Seq<char>, Seq<char>, Option<Seq<char>>)>) -> Seq<
    (Seq<char>, Seq<char>, Option<Seq<char>>),
> {
    let sorted = stable_sorted(unique_paths(ms), |v: (Seq<char>, Seq<char>, Option<Seq<char>>)| lower_name_key(v));
    if sorted.len() <= 20 {
        sorted
    } else {
        sorted.take(20)
    }
}

fn has_path(ms: &Vec<BaseProfileMatch>, path: &Vec<char>) -> (b: bool)
    ensures
        b == exists|j: int| 0 <= j < ms@.len() && ms@[j].path@ == path@,
{
    let mut i: usize = 0;
    while i < ms.len()
        invariant
            i <= ms.len(),
            forall|j: int| 0 <= j < i ==> ms@[j].path@ != path@,
        decreases ms.len() - i,
    {
        if chars_eq(&chars_of(ms[i].path.as_str()), path) {
            return true;
        }
        i = i + 1;
    }
    false
}

/// Ranks base profile matches (see `ranked_matches`).
pub fn rank_base_matches(matches: Vec<BaseProfileMatch>) -> (r: Vec<BaseProfileMatch>)
    ensures
        r@.map_values(|m: BaseProfileMatch| match_view(m)) == ranked_matches(
            matches@.map_values(|m: BaseProfileMatch| match_view(m)),
        ),
{
    let ghost mv = matches@.map_values(|m: BaseProfileMatch| match_view(m));
    let ghost keyf = |v: (Seq<char>, Seq<char>, Option<Seq<char>>)| lower_name_key(v);
    // Remove repeated paths.
    let mut unique: Vec<BaseProfileMatch> = Vec::new();
    let mut i: usize = 0;
    while i < matches.len()
        invariant
            i <= matches.len(),
            mv == matches@.map_values(|m: BaseProfileMatch| match_view(m)),
            unique@.map_values(|m: BaseProfileMatch| match_view(m)) == unique_paths(mv.take(i as int)),
        decreases matches.len() - i,
    {
        proof {
            assert(mv.take(i + 1).drop_last() == mv.take(i as int));
            assert(mv.take(i + 1).last() == mv[i as int]);
        }
        let m = &matches[i];
        let ghost uv = unique@.map_values(|m: BaseProfileMatch| match_view(m));
        let seen = has_path(&unique, &chars_of(m.path.as_str()));
        proof {
            if seen {
                let j = choose|j: int| 0 <= j < unique@.len() && unique@[j].path@ == m.path@;
                assert(uv[j].1 == mv[i as int].1);
            } else {
                assert forall|j: int| 0 <= j < uv.len() implies uv[j].1 != mv[i as int].1 by {
                    assert(uv[j].1 == unique@[j].path@);
                }
            }
        }
        if !seen {
            unique.push(m.clone_match());
            assert(unique@.map_values(|m: BaseProfileMatch| match_view(m)) == uv.push(mv[i as int]));
        }
        i = i + 1;
    }
    assert(mv.take(matches.len() as int) == mv);
    let ghost u = unique@.map_values(|m: BaseProfileMatch| match_view(m));
    // Stable insertion sort by lowercased name.
    let mut sorted: Vec<BaseProfileMatch> = Vec::new();
    let mut keys: Vec<Vec<char>> = Vec::new();
    let mut j: usize = 0;
    while j < unique.len()
        invariant
            j <= unique.len(),
            u == unique@.map_values(|m: BaseProfileMatch| match_view(m)),
            sorted@.map_values(|m: BaseProfileMatch| match_view(m)) == stable_sorted(u.take(j as int), keyf),
            keys@.map_values(|k: Vec<char>| k@) == sorted@.map_values(|m: BaseProfileMatch| match_view(m)).map_values(keyf),
            keyf == (|v: (Seq<char>, Seq<char>, Option<Seq<char>>)| lower_name_key(v)),
        decreases unique.len() - j,
    {
        proof {
            assert(u.take(j + 1).drop_last() == u.take(j as int));
            assert(u.take(j + 1).last() == u[j as int]);
        }
        let m = unique[j].clone_match();
        let k = lowercase(&chars_of(m.name.as_str()));
        let ghost sv = sorted@.map_values(|m: BaseProfileMatch| match_view(m));
        let ghost kv = keys@.map_values(|k: Vec<char>| k@);
        let mut p: usize = sorted.len();
        assert(kv.take(p as int) == kv);
        while p > 0 && text_less(&k, &keys[p - 1])
            invariant
                p <= keys.len(),
                keys.len() == sorted.len(),
                kv == keys@.map_values(|k: Vec<char>| k@),
                key_slot(kv, k@) == key_slot(kv.take(p as int), k@),
            decreases p,
        {
            proof {
                assert(kv.take(p as int).last() == kv[p - 1]);
                assert(kv.take(p as int).drop_last() == kv.take(p - 1));
            }
            p = p - 1;
        }
        proof {
            if p > 0 {
                assert(kv.take(p as int).last() == kv[p - 1]);
            }
            assert(key_slot(kv.take(p as int), k@) == p);
            assert(k@ == keyf(match_view(m)));
            assert(kv == sv.map_values(keyf));
        }
        let ghost kk = k@;
        let ghost mm = match_view(m);
        sorted.insert(p, m);
        keys.insert(p, k);
        proof {
            assert(sorted@.map_values(|m: BaseProfileMatch| match_view(m)) =~= sv.insert(p as int, mm));
            assert(keys@.map_values(|k: Vec<char>| k@) =~= kv.insert(p as int, kk));
            assert(sv.insert(p as int, mm).map_values(keyf) =~= kv.insert(p as int, kk));
        }
        j = j + 1;
    }
    assert(u.take(unique.len() as int) == u);
    if sorted.len() > 20 {
        sorted.truncate(20);
        assert(sorted@.map_values(|m: BaseProfileMatch| match_view(m)) =~= stable_sorted(u, keyf).take(20));
    }
    sorted
}

impl BaseProfileMatch {
    /// A copy of this match.
    pub fn clone_match(&self) -> (r: BaseProfileMatch)
        ensures
            match_view(r) == match_view(*self),
    {
        BaseProfileMatch {
            name: self.name.clone(),
            path: self.path.clone(),
            filament_type: match &self.filament_type {
                Some(t) => Some(t.clone()),
                None => None,
            },
        }
    }
}

/// Abstract view of a listed profile.
pub open spec fn info_view(p: ProfileInfo) -> (Seq<char>, Option<Seq<char>>, Option<Seq<char>>, Seq<char>, bool) {
    (p.name@, opt_view(p.filament_type), opt_view(p.filament_id), p.path@, p.is_user_profile)
}

/// Sort key of a listed profile: its lowercased name.
pub open spec fn info_key(v: (Seq<char>, Option<Seq<char>>, Option<Seq<char>>, Seq<char>, bool)) -> Seq<char> {
    lowercase_of(v.0)
}

/// Sorts listed profiles alphabetically by lowercased name (stable).
pub fn sort_profile_infos(infos: Vec<ProfileInfo>) -> (r: Vec<ProfileInfo>)
    ensures
        r@.map_values(|p: ProfileInfo| info_view(p)) == stable_sorted(
            infos@.map_values(|p: ProfileInfo| info_view(p)),
            |v: (Seq<char>, Option<Seq<char>>, Option<Seq<char>>, Seq<char>, bool)| info_key(v),
        ),
{
    let ghost u = infos@.map_values(|p: ProfileInfo| info_view(p));
    let ghost keyf = |v: (Seq<char>, Option<Seq<char>>, Option<Seq<char>>, Seq<char>, bool)| info_key(v);
    let mut sorted: Vec<ProfileInfo> = Vec::new();
    let mut keys: Vec<Vec<char>> = Vec::new();
    let mut j: usize = 0;
    while j < infos.len()
        invariant
            j <= infos.len(),
            u == infos@.map_values(|p: ProfileInfo| info_view(p)),
            sorted@.map_values(|p: ProfileInfo| info_view(p)) == stable_sorted(u.take(j as int), keyf),
            keys@.map_values(|k: Vec<char>| k@) == sorted@.map_values(|p: ProfileInfo| info_view(p)).map_values(keyf),
            keyf == (|v: (Seq<char>, Option<Seq<char>>, Option<Seq<char>>, Seq<char>, bool)| info_key(v)),
        decreases infos.len() - j,
    {
        proof {
            assert(u.take(j + 1).drop_last() == u.take(j as int));
            assert(u.take(j + 1).last() == u[j as int]);
        }
        let m = infos[j].clone_info();
        let k = lowercase(&chars_of(m.name.as_str()));
        let ghost sv = sorted@.map_values(|p: ProfileInfo| info_view(p));
        let ghost kv = keys@.map_values(|k: Vec<char>| k@);
        let mut p: usize = sorted.len();
        assert(kv.take(p as int) == kv);
        while p > 0 && text_less(&k, &keys[p - 1])
            invariant
                p <= keys.len(),
                keys.len() == sorted.len(),
                kv == keys@.map_values(|k: Vec<char>| k@),
                key_slot(kv, k@) == key_slot(kv.take(p as int), k@),
            decreases p,
        {
            proof {
                assert(kv.take(p as int).last() == kv[p - 1]);
                assert(kv.take(p as int).drop_last() == kv.take(p - 1));
            }
            p = p - 1;
        }
        proof {
            if p > 0 {
                assert(kv.take(p as int).last() == kv[p - 1]);
            }
            assert(key_slot(kv.take(p as int), k@) == p);
            assert(k@ == keyf(info_view(m)));
            assert(kv == sv.map_values(keyf));
        }
        let ghost kk = k@;
        let ghost mm = info_view(m);
        sorted.insert(p, m);
        keys.insert(p, k);
        proof {
            assert(sorted@.map_values(|p: ProfileInfo| info_view(p)) =~= sv.insert(p as int, mm));
            assert(keys@.map_values(|k: Vec<char>| k@) =~= kv.insert(p as int, kk));
            assert(sv.insert(p as int, mm).map_values(keyf) =~= kv.insert(p as int, kk));
        }
        j = j + 1;
    }
    assert(u.take(infos.len() as int) == u);
    sorted
}

impl ProfileInfo {
    /// A copy of this entry.
    pub fn clone_info(&self) -> (r: ProfileInfo)
        ensures
            info_view(r) == info_view(*self),
    {
        ProfileInfo {
            name: self.name.clone(),
            filament_type: match &self.filament_type {
                Some(t) => Some(t.clone()),
                None => None,
            },
            filament_id: match &self.filament_id {
                Some(t) => Some(t.clone()),
                None => None,
            },
            path: self.path.clone(),
            is_user_profile: self.is_user_profile,
        }
    }
}

// ---------------------------------------------------------------------------
// Laws
// ---------------------------------------------------------------------------

proof fn lemma_no_self_candidates(es: Entries, n: int)
    requires
        keys_distinct(es),
        0 <= n <= es.len(),
    ensures
        diff_candidates(es, es.take(n)) == Seq::<DiffView>::empty(),
    decreases n,
{
    if n > 0 {
        assert(es.take(n).drop_last() == es.take(n - 1));
        assert(es.take(n).last() == es[n - 1]);
        lemma_no_self_candidates(es, n - 1);
        crate::profile::types::lemma_lookup_index(es, es[n - 1].0, n - 1);
    }
}

// ---------------------------------------------------------------------------
// Duplicating a profile and saving edited specs into one
// ---------------------------------------------------------------------------

/// A lower-case hexadecimal digit.
pub open spec fn lower_hex_digit(d: nat) -> char {
    if d < 10 {
        (d + 48) as char
    } else {
        (d + 87) as char
    }
}

/// The lower-case hexadecimal numeral of `n`, without leading zeros.
pub open spec fn hex_text(n: nat) -> Seq<char>
    decreases n,
{
    if n < 16 {
        seq![lower_hex_digit(n)]
    } else {
        hex_text(n / 16).push(lower_hex_digit(n % 16))
    }
}

fn push_hex(out: &mut Vec<char>, n: u128)
    ensures
        final(out)@ == old(out)@ + hex_text(n as nat),
    decreases n,
{
    if n >= 16 {
        push_hex(out, n / 16);
    }
    let d: u8 = (n % 16) as u8;
    let c = if d < 10 {
        (d + 48) as char
    } else {
        (d + 87) as char
    };
    out.push(c);
}

/// The id of a duplicated profile: `BambuMate_`, the new name with spaces
/// made underscores, `_` and the creation time in milliseconds in hex.
pub open spec fn duplicate_id_of(name: Seq<char>, millis: nat) -> Seq<char> {
    "BambuMate_"@ + replace_char(name, ' ', '_') + "_"@ + hex_text(millis)
}

/// A duplicate's fields: the new name, the new `filament_id` and a
/// one-element `filament_settings_id`; every other field as it was.
pub open spec fn duplicated(es: Entries, name: Seq<char>, id: Seq<char>) -> Entries {
    with_entry(
        with_entry(with_entry(es, "name"@, ValueView::Str(name)), "filament_id"@, ValueView::Str(id)),
        "filament_settings_id"@,
        string_array_view(seq![id]),
    )
}

/// The id of a duplicate made at `millis` milliseconds since the epoch.
pub fn duplicate_id(new_name: &str, millis: u128) -> (r: String)
    ensures
        r@ == duplicate_id_of(new_name@, millis as nat),
{
    let mut out = chars_of("BambuMate_");
    push_all(&mut out, &replace_chars(&chars_of(new_name), ' ', '_'));
    push_all(&mut out, &chars_of("_"));
    push_hex(&mut out, millis);
    string_of(&out)
}

/// Turns a copy of a profile into a duplicate named `new_name`, made at
/// `millis`; returns the duplicate's id (see `duplicated`).
pub fn prepare_duplicate(profile: &mut FilamentProfile, new_name: &str, millis: u128) -> (id: String)
    ensures
        id@ == duplicate_id_of(new_name@, millis as nat),
        final(profile)@ == duplicated(old(profile)@, new_name@, id@),
{
    let id = duplicate_id(new_name, millis);
    profile.set_string("name", new_name.to_string());
    profile.set_string("filament_id", id.clone());
    let mut ids: Vec<String> = Vec::new();
    ids.push(id.clone());
    proof {
        assert(ids@.map_values(|s: String| s@) =~= seq![id@]);
    }
    profile.set_string_array("filament_settings_id", ids);
    id
}

/// A profile after saving edited specs into it: the specs applied as when
/// generating, and the name replaced when the specs give one.
pub open spec fn saved_specs(es: Entries, sp: FilamentSpecs) -> Entries {
    if sp.name@.len() > 0 {
        with_entry(applied(es, sp), "name"@, ValueView::Str(sp.name@))
    } else {
        applied(es, sp)
    }
}

/// Saves edited specs into an existing profile (see `saved_specs`).
pub fn save_specs_into(profile: &mut FilamentProfile, specs: &FilamentSpecs)
    requires
        applicable(*specs),
    ensures
        final(profile)@ == saved_specs(old(profile)@, *specs),
{
    apply_specs_to_profile(profile, specs);
    if chars_of(specs.name.as_str()).len() > 0 {
        profile.set_string("name", specs.name.clone());
    }
}

/// A profile compared with itself (as base and as generated profile) shows
/// no difference.
pub proof fn law_self_diff_empty(es: Entries)
    requires
        keys_distinct(es),
    ensures
        sorted_by_label(diff_candidates(es, es)) == Seq::<DiffView>::empty(),
{
    lemma_no_self_candidates(es, es.len() as int);
    assert(es.take(es.len() as int) == es);
}

proof fn lemma_no_self_changes(es: Entries, keys: Seq<Seq<char>>, c: Seq<char>)
    ensures
        changed_count(es, es, keys) == 0,
        category_rows(es, es, keys, false, c) == Seq::<DiffView>::empty(),
    decreases keys.len(),
{
    if keys.len() > 0 {
        lemma_no_self_changes(es, keys.drop_last(), c);
    }
}

proof fn lemma_no_self_groups(es: Entries, keys: Seq<Seq<char>>, names: Seq<Seq<char>>)
    ensures
        category_groups(es, es, keys, false, names) == Seq::<(Seq<char>, Seq<DiffView>)>::empty(),
    decreases names.len(),
{
    if names.len() > 0 {
        lemma_no_self_groups(es, keys, names.drop_last());
        lemma_no_self_changes(es, keys, names.last());
    }
}

/// Comparing a profile with itself finds no changed field, and without
/// identical rows shows no category at all.
pub proof fn law_self_compare(es: Entries)
    ensures
        changed_count(es, es, union_keys(es, es)) == 0,
        category_groups(es, es, union_keys(es, es), false, category_names()) == Seq::<
            (Seq<char>, Seq<DiffView>),
        >::empty(),
{
    lemma_no_self_changes(es, union_keys(es, es), Seq::empty());
    lemma_no_self_groups(es, union_keys(es, es), category_names());
}

// ---------------------------------------------------------------------------
// The text order and stable sorting
// ---------------------------------------------------------------------------

/// A character's code as `u32` is its value.
proof fn lemma_char_code(c: char)
    ensures
        (c as u32) as int == c as int,
{
    assert(0 <= c as int <= 0x10FFFF);
}

/// No text sorts before itself.
pub proof fn lemma_text_lt_irreflexive(a: Seq<char>)
    ensures
        !text_lt(a, a),
    decreases a.len(),
{
    if a.len() > 0 {
        lemma_text_lt_irreflexive(a.drop_first());
    }
}

/// The text order is transitive.
pub proof fn lemma_text_lt_transitive(a: Seq<char>, b: Seq<char>, c: Seq<char>)
    requires
        text_lt(a, b),
        text_lt(b, c),
    ensures
        text_lt(a, c),
    decreases a.len(),
{
    if a.len() > 0 && b.len() > 0 && c.len() > 0 && a[0] == b[0] && b[0] == c[0] {
        lemma_text_lt_transitive(a.drop_first(), b.drop_first(), c.drop_first());
    }
}

/// Of two different texts, one sorts before the other, and never both.
pub proof fn lemma_text_lt_total(a: Seq<char>, b: Seq<char>)
    ensures
        a != b ==> text_lt(a, b) || text_lt(b, a),
        !(text_lt(a, b) && text_lt(b, a)),
    decreases a.len(),
{
    if a.len() > 0 && b.len() > 0 {
        if a[0] == b[0] {
            lemma_text_lt_total(a.drop_first(), b.drop_first());
            if a != b {
                assert(a.drop_first() != b.drop_first()) by {
                    if a.drop_first() == b.drop_first() {
                        assert(a =~= seq![a[0]] + a.drop_first());
                        assert(b =~= seq![b[0]] + b.drop_first());
                    }
                }
            }
        } else {
            lemma_char_code(a[0]);
            lemma_char_code(b[0]);
        }
    } else if a.len() == 0 && b.len() == 0 {
        assert(a =~= b);
    }
}

/// "Not after" is transitive.
pub proof fn lemma_text_le_transitive(a: Seq<char>, b: Seq<char>, c: Seq<char>)
    requires
        !text_lt(b, a),
        !text_lt(c, b),
    ensures
        !text_lt(c, a),
{
    if text_lt(c, a) {
        if a == b {
        } else {
            lemma_text_lt_total(a, b);
            lemma_text_lt_transitive(c, a, b);
        }
    }
}

/// Keys in order: none sorts before an earlier one.
pub open spec fn texts_sorted(ks: Seq<Seq<char>>) -> bool {
    forall|i: int, j: int| 0 <= i < j < ks.len() ==> !text_lt(ks[j], ks[i])
}

/// The slot of a key splits sorted keys into those not after it and those
/// after it.
proof fn lemma_key_slot(ks: Seq<Seq<char>>, k: Seq<char>)
    requires
        texts_sorted(ks),
    ensures
        0 <= key_slot(ks, k) <= ks.len(),
        forall|i: int| 0 <= i < key_slot(ks, k) ==> !text_lt(k, ks[i]),
        forall|i: int| key_slot(ks, k) <= i < ks.len() ==> text_lt(k, ks[i]),
    decreases ks.len(),
{
    if ks.len() > 0 {
        let d = ks.drop_last();
        assert(texts_sorted(d)) by {
            assert forall|i: int, j: int| 0 <= i < j < d.len() implies !text_lt(d[j], d[i]) by {
                assert(d[i] == ks[i] && d[j] == ks[j]);
            }
        }
        if text_lt(k, ks.last()) {
            lemma_key_slot(d, k);
            assert forall|i: int| 0 <= i < ks.len() - 1 implies d[i] == ks[i] by {}
        } else {
            assert forall|i: int| 0 <= i < ks.len() implies !text_lt(k, ks[i]) by {
                if i < ks.len() - 1 {
                    lemma_text_le_transitive(ks[i], ks.last(), k);
                }
            }
        }
    }
}

/// A stable sort by a text key puts the keys in order and keeps every
/// element.
pub proof fn law_stable_sorted_in_order<T>(s: Seq<T>, key: spec_fn(T) -> Seq<char>)
    ensures
        texts_sorted(stable_sorted(s, key).map_values(key)),
        stable_sorted(s, key).len() == s.len(),
    decreases s.len(),
{
    if s.len() > 0 {
        let t = stable_sorted(s.drop_last(), key);
        law_stable_sorted_in_order(s.drop_last(), key);
        let ks = t.map_values(key);
        let x = s.last();
        lemma_key_slot(ks, key(x));
        let p = key_slot(ks, key(x));
        let u = t.insert(p, x);
        let ku = u.map_values(key);
        assert(ku =~= ks.insert(p, key(x)));
        assert forall|i: int, j: int| 0 <= i < j < ku.len() implies !text_lt(ku[j], ku[i]) by {
            if j < p {
                assert(ku[i] == ks[i] && ku[j] == ks[j]);
            } else if j == p {
                assert(ku[i] == ks[i]);
            } else if i < p {
                assert(ku[i] == ks[i] && ku[j] == ks[j - 1]);
                lemma_text_lt_total(key(x), ks[j - 1]);
                lemma_text_le_transitive(ks[i], key(x), ks[j - 1]);
            } else if i == p {
                assert(ku[j] == ks[j - 1]);
                lemma_text_lt_total(key(x), ks[j - 1]);
            } else {
                assert(ku[i] == ks[i - 1] && ku[j] == ks[j - 1]);
            }
        }
    }
}

/// Listed profiles come out in alphabetical order of their lowercased
/// names, all of them.
pub proof fn law_profile_infos_sorted(
    s: Seq<(Seq<char>, Option<Seq<char>>, Option<Seq<char>>, Seq<char>, bool)>,
)
    ensures
        texts_sorted(
            stable_sorted(s, |v: (Seq<char>, Option<Seq<char>>, Option<Seq<char>>, Seq<char>, bool)| info_key(v)).map_values(
                |v: (Seq<char>, Option<Seq<char>>, Option<Seq<char>>, Seq<char>, bool)| info_key(v),
            ),
        ),
        stable_sorted(s, |v: (Seq<char>, Option<Seq<char>>, Option<Seq<char>>, Seq<char>, bool)| info_key(v)).len()
            == s.len(),
{
    law_stable_sorted_in_order(s, |v: (Seq<char>, Option<Seq<char>>, Option<Seq<char>>, Seq<char>, bool)| info_key(v));
}

} // verus!
