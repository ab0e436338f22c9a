//! Turning filament specifications into Bambu Studio profile fields, and back.

use vstd::prelude::*;
use crate::fixed::{fixed_chars, fixed_text, parse_milli, parse_milli_spec, parse_u16, parse_u16_spec,
    parse_u8, parse_u8_spec, all_digits, digits_value, digit_value, is_digit, unsigned_digits};
use crate::scraper::types::{FilamentSpecs, MaterialType};
use crate::text::{chars_of, decimal, decimal_chars, digit_char, string_of};
use super::types::{as_string_array, keys_distinct, lemma_with_entry, lookup, name_of, string_array_view,
    with_entry, Entries, FilamentProfile, ItemView, ValueView};

verus! {

broadcast use vstd::string::group_string_axioms;

/// Map a material type to the Bambu Studio base profile it derives from
/// (the "Generic X" profiles that ship with Bambu Studio).
pub fn base_profile_name(material: &MaterialType) -> (r: &'static str)
    ensures
        r@ == base_profile_of(material.tag()),
{
    match material {
        MaterialType::PLA => "Generic PLA",
        MaterialType::PETG => "Generic PETG",
        MaterialType::ABS => "Generic ABS",
        MaterialType::ASA => "Generic ASA",
        MaterialType::TPU => "Generic TPU",
        MaterialType::Nylon => "Generic PA",
        MaterialType::PC => "Generic PC",
        MaterialType::PVA => "Generic PVA",
        MaterialType::HIPS => "Generic HIPS",
        MaterialType::Other(_) => "Generic PLA",
    }
}

/// Base profile name of each material family (unknown families use PLA's).
pub open spec fn base_profile_of(tag: nat) -> Seq<char> {
    if tag == 1 {
        "Generic PETG"@
    } else if tag == 2 {
        "Generic ABS"@
    } else if tag == 3 {
        "Generic ASA"@
    } else if tag == 4 {
        "Generic TPU"@
    } else if tag == 5 {
        "Generic PA"@
    } else if tag == 6 {
        "Generic PC"@
    } else if tag == 7 {
        "Generic PVA"@
    } else if tag == 8 {
        "Generic HIPS"@
    } else {
        "Generic PLA"@
    }
}

// ---------------------------------------------------------------------------
// Specs -> profile
// ---------------------------------------------------------------------------

/// A dual-extruder value: the same string for both extruders.
pub open spec fn dual(t: Seq<char>) -> ValueView {
    string_array_view(seq![t, t])
}

/// Set `key` to the dual value of `v` when there is one.
pub open spec fn set_dual_opt(es: Entries, key: Seq<char>, v: Option<Seq<char>>) -> Entries {
    match v {
        Some(t) => with_entry(es, key, dual(t)),
        None => es,
    }
}

/// The first option that is present.
pub open spec fn or_nat(a: Option<nat>, b: Option<nat>) -> Option<nat> {
    match a {
        Some(x) => Some(x),
        None => b,
    }
}

pub open spec fn nat16(o: Option<u16>) -> Option<nat> {
    match o {
        Some(x) => Some(x as nat),
        None => None,
    }
}

pub open spec fn nat8(o: Option<u8>) -> Option<nat> {
    match o {
        Some(x) => Some(x as nat),
        None => None,
    }
}

pub open spec fn plus(o: Option<nat>, k: nat) -> Option<nat> {
    match o {
        Some(x) => Some(x + k),
        None => None,
    }
}

pub open spec fn minus_sat(o: Option<nat>, k: nat) -> Option<nat> {
    match o {
        Some(x) => Some(if x >= k { (x - k) as nat } else { 0 }),
        None => None,
    }
}

/// Decimal text of an optional count.
pub open spec fn dec_opt(o: Option<nat>) -> Option<Seq<char>> {
    match o {
        Some(x) => Some(decimal(x)),
        None => None,
    }
}

/// Text of an optional thousandths quantity with `places` decimals.
pub open spec fn fixed_opt(o: Option<i64>, places: nat) -> Option<Seq<char>> {
    match o {
        Some(x) => Some(fixed_text(x as int, places)),
        None => None,
    }
}

/// Nozzle temperatures: the explicit temperature (else the range maximum),
/// the first-layer temperature (else 5 degrees above either), and the
/// slider range (maximum plus 20, minimum).
#[verifier::opaque]
pub open spec fn apply_nozzle(es: Entries, sp: FilamentSpecs) -> Entries {
    let nt = nat16(sp.nozzle_temperature);
    let nmax = nat16(sp.nozzle_temp_max);
    let e1 = set_dual_opt(es, "nozzle_temperature"@, dec_opt(or_nat(nt, nmax)));
    let e2 = set_dual_opt(e1, "nozzle_temperature_initial_layer"@, dec_opt(
        or_nat(nat16(sp.nozzle_temperature_initial_layer), or_nat(plus(nt, 5), plus(nmax, 5))),
    ));
    let e3 = set_dual_opt(e2, "nozzle_temperature_range_high"@, dec_opt(plus(nmax, 20)));
    set_dual_opt(e3, "nozzle_temperature_range_low"@, dec_opt(nat16(sp.nozzle_temp_min)))
}

/// Per-plate bed temperatures: explicit plate values, else the bed range
/// (hot and engineering plates from its maximum, cool plate from its
/// minimum, textured plate 5 degrees below its minimum).
#[verifier::opaque]
pub open spec fn apply_plates(es: Entries, sp: FilamentSpecs) -> Entries {
    let bmax = nat16(sp.bed_temp_max);
    let bmin = nat16(sp.bed_temp_min);
    let hot = nat16(sp.hot_plate_temp);
    let cool = nat16(sp.cool_plate_temp);
    let eng = nat16(sp.eng_plate_temp);
    let tex = nat16(sp.textured_plate_temp);
    let e1 = set_dual_opt(es, "hot_plate_temp"@, dec_opt(or_nat(hot, bmax)));
    let e2 = set_dual_opt(e1, "hot_plate_temp_initial_layer"@, dec_opt(
        or_nat(nat16(sp.hot_plate_temp_initial_layer), or_nat(hot, bmax)),
    ));
    let e3 = set_dual_opt(e2, "cool_plate_temp"@, dec_opt(or_nat(cool, bmin)));
    let e4 = set_dual_opt(e3, "cool_plate_temp_initial_layer"@, dec_opt(
        or_nat(nat16(sp.cool_plate_temp_initial_layer), or_nat(cool, bmin)),
    ));
    let e5 = set_dual_opt(e4, "eng_plate_temp"@, dec_opt(or_nat(eng, bmax)));
    let e6 = set_dual_opt(e5, "eng_plate_temp_initial_layer"@, dec_opt(
        or_nat(nat16(sp.eng_plate_temp_initial_layer), or_nat(eng, bmax)),
    ));
    let e7 = set_dual_opt(e6, "textured_plate_temp"@, dec_opt(or_nat(tex, minus_sat(bmin, 5))));
    set_dual_opt(e7, "textured_plate_temp_initial_layer"@, dec_opt(
        or_nat(nat16(sp.textured_plate_temp_initial_layer), or_nat(tex, minus_sat(bmin, 5))),
    ))
}

/// Flow settings: volumetric speed (no decimals), flow ratio (2 decimals),
/// pressure advance (3 decimals).
#[verifier::opaque]
pub open spec fn apply_flow(es: Entries, sp: FilamentSpecs) -> Entries {
    let e1 = set_dual_opt(es, "filament_max_volumetric_speed"@, fixed_opt(sp.max_volumetric_speed, 0));
    let e2 = set_dual_opt(e1, "filament_flow_ratio"@, fixed_opt(sp.filament_flow_ratio, 2));
    set_dual_opt(e2, "pressure_advance"@, fixed_opt(sp.pressure_advance, 3))
}

/// Fan settings: maximum (else the legacy fan speed), minimum (else 60 % of
/// the legacy fan speed, rounded down), overhang, first layers without fan,
/// auxiliary fan.
#[verifier::opaque]
pub open spec fn apply_fans(es: Entries, sp: FilamentSpecs) -> Entries {
    let legacy = nat8(sp.fan_speed_percent);
    let e1 = set_dual_opt(es, "fan_max_speed"@, dec_opt(or_nat(nat8(sp.fan_max_speed), legacy)));
    let e2 = set_dual_opt(e1, "fan_min_speed"@, dec_opt(or_nat(nat8(sp.fan_min_speed), match legacy {
        Some(f) => Some(f * 6 / 10),
        None => None,
    })));
    let e3 = set_dual_opt(e2, "overhang_fan_speed"@, dec_opt(nat8(sp.overhang_fan_speed)));
    let e4 = set_dual_opt(e3, "close_fan_the_first_x_layers"@, dec_opt(nat8(sp.close_fan_the_first_x_layers)));
    set_dual_opt(e4, "additional_cooling_fan_speed"@, dec_opt(nat8(sp.additional_cooling_fan_speed)))
}

/// Cooling slowdown, retraction (length with 1 decimal) and bridge speed.
#[verifier::opaque]
pub open spec fn apply_motion(es: Entries, sp: FilamentSpecs) -> Entries {
    let e1 = set_dual_opt(es, "slow_down_layer_time"@, dec_opt(nat8(sp.slow_down_layer_time)));
    let e2 = set_dual_opt(e1, "slow_down_min_speed"@, dec_opt(nat16(sp.slow_down_min_speed)));
    let e3 = set_dual_opt(e2, "filament_retraction_length"@, fixed_opt(sp.retraction_distance_mm, 1));
    let e4 = set_dual_opt(e3, "filament_retraction_speed"@, dec_opt(nat16(sp.retraction_speed_mm_s)));
    let e5 = set_dual_opt(e4, "filament_deretraction_speed"@, dec_opt(nat16(sp.deretraction_speed_mm_s)));
    set_dual_opt(e5, "filament_bridge_speed"@, dec_opt(nat16(sp.bridge_speed)))
}

/// Physical properties (density and cost with 2 decimals) and the
/// material identity, which is always written.
#[verifier::opaque]
pub open spec fn apply_physical(es: Entries, sp: FilamentSpecs) -> Entries {
    let e1 = set_dual_opt(es, "filament_density"@, fixed_opt(sp.density_g_cm3, 2));
    let e2 = set_dual_opt(e1, "temperature_vitrification"@, dec_opt(nat16(sp.temperature_vitrification)));
    let e3 = set_dual_opt(e2, "filament_cost"@, fixed_opt(sp.filament_cost, 2));
    let e4 = with_entry(e3, "filament_type"@, dual(sp.material@));
    with_entry(e4, "filament_vendor"@, dual(sp.brand@))
}

/// The profile entries after applying the specs, group after group.
#[verifier::opaque]
pub open spec fn applied(es: Entries, sp: FilamentSpecs) -> Entries {
    apply_physical(
        apply_motion(apply_fans(apply_flow(apply_plates(apply_nozzle(es, sp), sp), sp), sp), sp),
        sp,
    )
}

/// The specs can be applied without overflowing the temperature arithmetic.
pub open spec fn applicable(sp: FilamentSpecs) -> bool {
    &&& sp.nozzle_temperature matches Some(t) ==> t <= 65530
    &&& sp.nozzle_temp_max matches Some(t) ==> t <= 65515
}

fn set_dual(profile: &mut FilamentProfile, key: &str, v: Vec<char>)
    ensures
        final(profile)@ == with_entry(old(profile)@, key@, dual(v@)),
{
    let a = string_of(&v);
    let b = string_of(&v);
    let mut vals: Vec<String> = Vec::new();
    vals.push(a);
    vals.push(b);
    proof {
        assert(vals@.map_values(|s: String| s@) =~= seq![v@, v@]);
    }
    profile.set_string_array(key, vals);
}

fn set_dual_num(profile: &mut FilamentProfile, key: &str, v: Option<u64>)
    ensures
        final(profile)@ == set_dual_opt(old(profile)@, key@, dec_opt(
            match v {
                Some(x) => Some(x as nat),
                None => None,
            },
        )),
{
    if let Some(x) = v {
        set_dual(profile, key, decimal_chars(x));
    }
}

fn set_dual_fixed(profile: &mut FilamentProfile, key: &str, v: Option<i64>, places: u64)
    requires
        places <= 3,
    ensures
        final(profile)@ == set_dual_opt(old(profile)@, key@, fixed_opt(v, places as nat)),
{
    if let Some(x) = v {
        set_dual(profile, key, fixed_chars(x, places));
    }
}

fn n16(o: Option<u16>) -> (r: Option<u64>)
    ensures
        r == (match nat16(o) {
            Some(x) => Some(x as u64),
            None => None::<u64>,
        }),
        nat16(o) == (match r {
            Some(x) => Some(x as nat),
            None => None,
        }),
{
    match o {
        Some(x) => Some(x as u64),
        None => None,
    }
}

fn n8(o: Option<u8>) -> (r: Option<u64>)
    ensures
        nat8(o) == (match r {
            Some(x) => Some(x as nat),
            None => None,
        }),
        r matches Some(x) ==> x <= 255,
{
    match o {
        Some(x) => Some(x as u64),
        None => None,
    }
}

fn or_u64(a: Option<u64>, b: Option<u64>) -> (r: Option<u64>)
    ensures
        r == (match a {
            Some(x) => Some(x),
            None => b,
        }),
{
    match a {
        Some(x) => Some(x),
        None => b,
    }
}

fn plus_u64(a: Option<u64>, k: u64) -> (r: Option<u64>)
    requires
        a matches Some(x) ==> x + k <= u64::MAX,
    ensures
        r == (match a {
            Some(x) => Some((x + k) as u64),
            None => None,
        }),
{
    match a {
        Some(x) => Some(x + k),
        None => None,
    }
}

fn minus_sat_u64(a: Option<u64>, k: u64) -> (r: Option<u64>)
    ensures
        r == (match a {
            Some(x) => Some(if x >= k { (x - k) as u64 } else { 0 }),
            None => None,
        }),
{
    match a {
        Some(x) => Some(if x >= k { x - k } else { 0 }),
        None => None,
    }
}

proof fn lemma_nat_opt(a: Option<u64>)
    ensures
        (match a {
            Some(x) => Some(x as nat),
            None => None::<nat>,
        }) == (match a {
            Some(x) => Some(x as nat),
            None => None::<nat>,
        }),
{
}

fn apply_nozzle_exec(profile: &mut FilamentProfile, specs: &FilamentSpecs)
    requires
        applicable(*specs),
    ensures
        final(profile)@ == apply_nozzle(old(profile)@, *specs),
{
    proof {
        reveal(apply_nozzle);
    }
    let nt = n16(specs.nozzle_temperature);
    let nmax = n16(specs.nozzle_temp_max);
    set_dual_num(profile, "nozzle_temperature", or_u64(nt, nmax));
    let first = or_u64(n16(specs.nozzle_temperature_initial_layer), or_u64(plus_u64(nt, 5), plus_u64(nmax, 5)));
    set_dual_num(profile, "nozzle_temperature_initial_layer", first);
    set_dual_num(profile, "nozzle_temperature_range_high", plus_u64(nmax, 20));
    set_dual_num(profile, "nozzle_temperature_range_low", n16(specs.nozzle_temp_min));
}

fn apply_plates_exec(profile: &mut FilamentProfile, specs: &FilamentSpecs)
    ensures
        final(profile)@ == apply_plates(old(profile)@, *specs),
{
    proof {
        reveal(apply_plates);
    }
    let bmax = n16(specs.bed_temp_max);
    let bmin = n16(specs.bed_temp_min);
    let hot = n16(specs.hot_plate_temp);
    let cool = n16(specs.cool_plate_temp);
    let eng = n16(specs.eng_plate_temp);
    let tex = n16(specs.textured_plate_temp);
    set_dual_num(profile, "hot_plate_temp", or_u64(hot, bmax));
    set_dual_num(profile, "hot_plate_temp_initial_layer", or_u64(n16(specs.hot_plate_temp_initial_layer), or_u64(hot, bmax)));
    set_dual_num(profile, "cool_plate_temp", or_u64(cool, bmin));
    set_dual_num(profile, "cool_plate_temp_initial_layer", or_u64(n16(specs.cool_plate_temp_initial_layer), or_u64(cool, bmin)));
    set_dual_num(profile, "eng_plate_temp", or_u64(eng, bmax));
    set_dual_num(profile, "eng_plate_temp_initial_layer", or_u64(n16(specs.eng_plate_temp_initial_layer), or_u64(eng, bmax)));
    set_dual_num(profile, "textured_plate_temp", or_u64(tex, minus_sat_u64(bmin, 5)));
    set_dual_num(profile, "textured_plate_temp_initial_layer", or_u64(n16(specs.textured_plate_temp_initial_layer), or_u64(tex, minus_sat_u64(bmin, 5))));
}

fn apply_flow_exec(profile: &mut FilamentProfile, specs: &FilamentSpecs)
    ensures
        final(profile)@ == apply_flow(old(profile)@, *specs),
{
    proof {
        reveal(apply_flow);
    }
    set_dual_fixed(profile, "filament_max_volumetric_speed", specs.max_volumetric_speed, 0);
    set_dual_fixed(profile, "filament_flow_ratio", specs.filament_flow_ratio, 2);
    set_dual_fixed(profile, "pressure_advance", specs.pressure_advance, 3);
}

fn apply_fans_exec(profile: &mut FilamentProfile, specs: &FilamentSpecs)
    ensures
        final(profile)@ == apply_fans(old(profile)@, *specs),
{
    proof {
        reveal(apply_fans);
    }
    let legacy = n8(specs.fan_speed_percent);
    set_dual_num(profile, "fan_max_speed", or_u64(n8(specs.fan_max_speed), legacy));
    let scaled: Option<u64> = match legacy {
        Some(f) => Some(f * 6 / 10),
        None => None,
    };
    set_dual_num(profile, "fan_min_speed", or_u64(n8(specs.fan_min_speed), scaled));
    set_dual_num(profile, "overhang_fan_speed", n8(specs.overhang_fan_speed));
    set_dual_num(profile, "close_fan_the_first_x_layers", n8(specs.close_fan_the_first_x_layers));
    set_dual_num(profile, "additional_cooling_fan_speed", n8(specs.additional_cooling_fan_speed));
}

fn apply_motion_exec(profile: &mut FilamentProfile, specs: &FilamentSpecs)
    ensures
        final(profile)@ == apply_motion(old(profile)@, *specs),
{
    proof {
        reveal(apply_motion);
    }
    set_dual_num(profile, "slow_down_layer_time", n8(specs.slow_down_layer_time));
    set_dual_num(profile, "slow_down_min_speed", n16(specs.slow_down_min_speed));
    set_dual_fixed(profile, "filament_retraction_length", specs.retraction_distance_mm, 1);
    set_dual_num(profile, "filament_retraction_speed", n16(specs.retraction_speed_mm_s));
    set_dual_num(profile, "filament_deretraction_speed", n16(specs.deretraction_speed_mm_s));
    set_dual_num(profile, "filament_bridge_speed", n16(specs.bridge_speed));
}

fn apply_physical_exec(profile: &mut FilamentProfile, specs: &FilamentSpecs)
    ensures
        final(profile)@ == apply_physical(old(profile)@, *specs),
{
    proof {
        reveal(apply_physical);
    }
    set_dual_fixed(profile, "filament_density", specs.density_g_cm3, 2);
    set_dual_num(profile, "temperature_vitrification", n16(specs.temperature_vitrification));
    set_dual_fixed(profile, "filament_cost", specs.filament_cost, 2);
    set_dual(profile, "filament_type", chars_of(specs.material.as_str()));
    set_dual(profile, "filament_vendor", chars_of(specs.brand.as_str()));
}

/// Apply scraped filament specs to a profile, overriding the base values
/// (see `applied`). Every value is written as a 2-element string array,
/// one element per extruder.
pub fn apply_specs_to_profile(profile: &mut FilamentProfile, specs: &FilamentSpecs)
    requires
        applicable(*specs),
    ensures
        final(profile)@ == applied(old(profile)@, *specs),
{
    proof {
        reveal(applied);
    }
    apply_nozzle_exec(profile, specs);
    apply_plates_exec(profile, specs);
    apply_flow_exec(profile, specs);
    apply_fans_exec(profile, specs);
    apply_motion_exec(profile, specs);
    apply_physical_exec(profile, specs);
}

// ---------------------------------------------------------------------------
// Profile -> specs
// ---------------------------------------------------------------------------

/// The first string of `key`'s value, when it is a non-empty array of strings.
pub open spec fn first_string(es: Entries, key: Seq<char>) -> Option<Seq<char>> {
    match lookup(es, key) {
        Some(v) => match as_string_array(v) {
            Some(ss) => if ss.len() > 0 {
                Some(ss[0])
            } else {
                None
            },
            None => None,
        },
        None => None,
    }
}

pub open spec fn field_u16(es: Entries, key: Seq<char>) -> Option<u16> {
    match first_string(es, key) {
        Some(t) => parse_u16_spec(t),
        None => None,
    }
}

pub open spec fn field_u8(es: Entries, key: Seq<char>) -> Option<u8> {
    match first_string(es, key) {
        Some(t) => parse_u8_spec(t),
        None => None,
    }
}

pub open spec fn field_milli(es: Entries, key: Seq<char>) -> Option<i64> {
    match first_string(es, key) {
        Some(t) => parse_milli_spec(t),
        None => None,
    }
}

/// A text field: the first array element, else a plain string value, else empty.
pub open spec fn field_text(es: Entries, key: Seq<char>) -> Seq<char> {
    match first_string(es, key) {
        Some(t) => t,
        None => match lookup(es, key) {
            Some(ValueView::Str(s)) => s,
            _ => Seq::empty(),
        },
    }
}

/// The specifications that a profile's fields give (see the field helpers);
/// the nozzle maximum is read back from the slider bound, 20 degrees lower.
pub open spec fn specs_of_profile(es: Entries, sp: FilamentSpecs) -> bool {
    &&& sp.name@ == (match name_of(es) {
        Some(n) => n,
        None => Seq::empty(),
    })
    &&& sp.brand@ == field_text(es, "filament_vendor"@)
    &&& sp.material@ == field_text(es, "filament_type"@)
    &&& sp.nozzle_temp_min == field_u16(es, "nozzle_temperature_range_low"@)
    &&& sp.nozzle_temp_max == (match field_u16(es, "nozzle_temperature_range_high"@) {
        Some(v) => Some(if v >= 20 { (v - 20) as u16 } else { 0u16 }),
        None => None,
    })
    &&& sp.bed_temp_min == field_u16(es, "cool_plate_temp"@)
    &&& sp.bed_temp_max == field_u16(es, "hot_plate_temp"@)
    &&& sp.nozzle_temperature == field_u16(es, "nozzle_temperature"@)
    &&& sp.nozzle_temperature_initial_layer == field_u16(es, "nozzle_temperature_initial_layer"@)
    &&& sp.hot_plate_temp == field_u16(es, "hot_plate_temp"@)
    &&& sp.hot_plate_temp_initial_layer == field_u16(es, "hot_plate_temp_initial_layer"@)
    &&& sp.cool_plate_temp == field_u16(es, "cool_plate_temp"@)
    &&& sp.cool_plate_temp_initial_layer == field_u16(es, "cool_plate_temp_initial_layer"@)
    &&& sp.eng_plate_temp == field_u16(es, "eng_plate_temp"@)
    &&& sp.eng_plate_temp_initial_layer == field_u16(es, "eng_plate_temp_initial_layer"@)
    &&& sp.textured_plate_temp == field_u16(es, "textured_plate_temp"@)
    &&& sp.textured_plate_temp_initial_layer == field_u16(es, "textured_plate_temp_initial_layer"@)
    &&& sp.max_volumetric_speed == field_milli(es, "filament_max_volumetric_speed"@)
    &&& sp.filament_flow_ratio == field_milli(es, "filament_flow_ratio"@)
    &&& sp.pressure_advance == field_milli(es, "pressure_advance"@)
    &&& sp.fan_min_speed == field_u8(es, "fan_min_speed"@)
    &&& sp.fan_max_speed == field_u8(es, "fan_max_speed"@)
    &&& sp.overhang_fan_speed == field_u8(es, "overhang_fan_speed"@)
    &&& sp.close_fan_the_first_x_layers == field_u8(es, "close_fan_the_first_x_layers"@)
    &&& sp.additional_cooling_fan_speed == field_u8(es, "additional_cooling_fan_speed"@)
    &&& sp.fan_speed_percent is None
    &&& sp.slow_down_layer_time == field_u8(es, "slow_down_layer_time"@)
    &&& sp.slow_down_min_speed == field_u16(es, "slow_down_min_speed"@)
    &&& sp.retraction_distance_mm == field_milli(es, "filament_retraction_length"@)
    &&& sp.retraction_speed_mm_s == field_u16(es, "filament_retraction_speed"@)
    &&& sp.deretraction_speed_mm_s == field_u16(es, "filament_deretraction_speed"@)
    &&& sp.bridge_speed == field_u16(es, "filament_bridge_speed"@)
    &&& sp.density_g_cm3 == field_milli(es, "filament_density"@)
    &&& sp.diameter_mm == field_milli(es, "filament_diameter"@)
    &&& sp.temperature_vitrification == field_u16(es, "temperature_vitrification"@)
    &&& sp.filament_cost == field_milli(es, "filament_cost"@)
    &&& sp.max_speed_mm_s is None
    &&& sp.source_url@ == "profile"@
    &&& sp.extraction_confidence == 1000
}

fn first_string_of(profile: &FilamentProfile, key: &str) -> (r: Option<Vec<char>>)
    ensures
        match r {
            Some(t) => first_string(profile@, key@) == Some(t@),
            None => first_string(profile@, key@) is None,
        },
{
    match profile.get_string_array(key) {
        Some(arr) => {
            if arr.len() > 0 {
                proof {
                    assert(arr@.map_values(|s: String| s@)[0] == arr@[0]@);
                }
                Some(chars_of(arr[0].as_str()))
            } else {
                None
            }
        },
        None => None,
    }
}

fn get_u16(profile: &FilamentProfile, key: &str) -> (r: Option<u16>)
    ensures
        r == field_u16(profile@, key@),
{
    match first_string_of(profile, key) {
        Some(t) => parse_u16(&t),
        None => None,
    }
}

fn get_u8(profile: &FilamentProfile, key: &str) -> (r: Option<u8>)
    ensures
        r == field_u8(profile@, key@),
{
    match first_string_of(profile, key) {
        Some(t) => parse_u8(&t),
        None => None,
    }
}

fn get_milli(profile: &FilamentProfile, key: &str) -> (r: Option<i64>)
    ensures
        r == field_milli(profile@, key@),
{
    match first_string_of(profile, key) {
        Some(t) => parse_milli(&t),
        None => None,
    }
}

fn get_text(profile: &FilamentProfile, key: &str) -> (r: String)
    ensures
        r@ == field_text(profile@, key@),
{
    match first_string_of(profile, key) {
        Some(t) => string_of(&t),
        None => match profile.get(key) {
            Some(crate::profile::types::ProfileValue::Str(s)) => s.clone(),
            _ => String::new(),
        },
    }
}

/// Read a profile's fields back into specifications (see `specs_of_profile`):
/// the reverse of `apply_specs_to_profile`.
pub fn extract_specs_from_profile(profile: &FilamentProfile) -> (sp: FilamentSpecs)
    ensures
        specs_of_profile(profile@, sp),
{
    let name = match profile.name() {
        Some(n) => n.to_string(),
        None => String::new(),
    };
    let nmax = match get_u16(profile, "nozzle_temperature_range_high") {
        Some(v) => Some(if v >= 20 { v - 20 } else { 0 }),
        None => None,
    };
    FilamentSpecs {
        name,
        brand: get_text(profile, "filament_vendor"),
        material: get_text(profile, "filament_type"),
        nozzle_temp_min: get_u16(profile, "nozzle_temperature_range_low"),
        nozzle_temp_max: nmax,
        bed_temp_min: get_u16(profile, "cool_plate_temp"),
        bed_temp_max: get_u16(profile, "hot_plate_temp"),
        nozzle_temperature: get_u16(profile, "nozzle_temperature"),
        nozzle_temperature_initial_layer: get_u16(profile, "nozzle_temperature_initial_layer"),
        hot_plate_temp: get_u16(profile, "hot_plate_temp"),
        hot_plate_temp_initial_layer: get_u16(profile, "hot_plate_temp_initial_layer"),
        cool_plate_temp: get_u16(profile, "cool_plate_temp"),
        cool_plate_temp_initial_layer: get_u16(profile, "cool_plate_temp_initial_layer"),
        eng_plate_temp: get_u16(profile, "eng_plate_temp"),
        eng_plate_temp_initial_layer: get_u16(profile, "eng_plate_temp_initial_layer"),
        textured_plate_temp: get_u16(profile, "textured_plate_temp"),
        textured_plate_temp_initial_layer: get_u16(profile, "textured_plate_temp_initial_layer"),
        max_volumetric_speed: get_milli(profile, "filament_max_volumetric_speed"),
        filament_flow_ratio: get_milli(profile, "filament_flow_ratio"),
        pressure_advance: get_milli(profile, "pressure_advance"),
        fan_min_speed: get_u8(profile, "fan_min_speed"),
        fan_max_speed: get_u8(profile, "fan_max_speed"),
        overhang_fan_speed: get_u8(profile, "overhang_fan_speed"),
        close_fan_the_first_x_layers: get_u8(profile, "close_fan_the_first_x_layers"),
        additional_cooling_fan_speed: get_u8(profile, "additional_cooling_fan_speed"),
        fan_speed_percent: None,
        slow_down_layer_time: get_u8(profile, "slow_down_layer_time"),
        slow_down_min_speed: get_u16(profile, "slow_down_min_speed"),
        retraction_distance_mm: get_milli(profile, "filament_retraction_length"),
        retraction_speed_mm_s: get_u16(profile, "filament_retraction_speed"),
        deretraction_speed_mm_s: get_u16(profile, "filament_deretraction_speed"),
        bridge_speed: get_u16(profile, "filament_bridge_speed"),
        density_g_cm3: get_milli(profile, "filament_density"),
        diameter_mm: get_milli(profile, "filament_diameter"),
        temperature_vitrification: get_u16(profile, "temperature_vitrification"),
        filament_cost: get_milli(profile, "filament_cost"),
        max_speed_mm_s: None,
        source_url: "profile".to_string(),
        extraction_confidence: 1000,
    }
}

// ---------------------------------------------------------------------------
// Generating a profile from a resolved base
// ---------------------------------------------------------------------------

/// The printer a generated profile targets when none is named.
pub const DEFAULT_PRINTER: &'static str = "Bambu Lab H2C 0.4 nozzle";

/// The target printer: the one named, else `DEFAULT_PRINTER`.
pub open spec fn printer_of(target_printer: Option<Seq<char>>) -> Seq<char> {
    match target_printer {
        Some(p) => p,
        None => DEFAULT_PRINTER@,
    }
}

/// A generated profile's name: brand, material and name, then `@` and the
/// printer.
pub open spec fn generated_name(sp: FilamentSpecs, printer: Seq<char>) -> Seq<char> {
    sp.brand@ + " "@ + sp.material@ + " "@ + sp.name@ + " @"@ + printer
}

/// The identity fields of a generated profile: its name, no parent (it is
/// fully flattened), a user profile, its filament id, instantiable, and its
/// settings id on both extruders.
pub open spec fn with_identity(es: Entries, name: Seq<char>, filament_id: Seq<char>) -> Entries {
    let e1 = with_entry(es, "name"@, ValueView::Str(name));
    let e2 = with_entry(e1, "inherits"@, ValueView::Str(Seq::empty()));
    let e3 = with_entry(e2, "from"@, ValueView::Str("User"@));
    let e4 = with_entry(e3, "filament_id"@, ValueView::Str(filament_id));
    let e5 = with_entry(e4, "instantiation"@, ValueView::Str("true"@));
    with_entry(e5, "filament_settings_id"@, string_array_view(seq![name, name]))
}

/// A generated profile: the resolved base with the identity fields, the
/// specs applied, and no printer restriction.
pub open spec fn generated_entries(es: Entries, sp: FilamentSpecs, name: Seq<char>, filament_id: Seq<char>) -> Entries {
    with_entry(
        applied(with_identity(es, name, filament_id), sp),
        "compatible_printers"@,
        string_array_view(Seq::empty()),
    )
}

/// Turns a resolved base profile into the generated profile for the specs
/// (see `generated_entries`), with the given filament id; returns the
/// profile's name and its file name (the name followed by `.json`).
pub fn fill_generated_profile(
    profile: &mut FilamentProfile,
    specs: &FilamentSpecs,
    target_printer: Option<&str>,
    filament_id: String,
) -> (r: (String, String))
    requires
        applicable(*specs),
    ensures
        r.0@ == generated_name(*specs, printer_of(match target_printer {
            Some(p) => Some(p@),
            None => None,
        })),
        r.1@ == r.0@ + ".json"@,
        final(profile)@ == generated_entries(old(profile)@, *specs, r.0@, filament_id@),
{
    let printer = match target_printer {
        Some(p) => p,
        None => DEFAULT_PRINTER,
    };
    let mut v: Vec<char> = Vec::new();
    crate::text::push_str(&mut v, specs.brand.as_str());
    crate::text::push_str(&mut v, " ");
    crate::text::push_str(&mut v, specs.material.as_str());
    crate::text::push_str(&mut v, " ");
    crate::text::push_str(&mut v, specs.name.as_str());
    crate::text::push_str(&mut v, " @");
    crate::text::push_str(&mut v, printer);
    let name = string_of(&v);
    crate::text::push_str(&mut v, ".json");
    let file_name = string_of(&v);
    let ghost fid = filament_id@;
    profile.set_string("name", string_of(&chars_of(name.as_str())));
    profile.set_string("inherits", String::new());
    profile.set_string("from", "User".to_string());
    profile.set_string("filament_id", filament_id);
    profile.set_string("instantiation", "true".to_string());
    let mut ids: Vec<String> = Vec::new();
    ids.push(string_of(&chars_of(name.as_str())));
    ids.push(string_of(&chars_of(name.as_str())));
    proof {
        assert(ids@.map_values(|s: String| s@) =~= seq![name@, name@]);
    }
    profile.set_string_array("filament_settings_id", ids);
    apply_specs_to_profile(profile, specs);
    let none: Vec<String> = Vec::new();
    proof {
        assert(none@.map_values(|s: String| s@) =~= Seq::<Seq<char>>::empty());
    }
    profile.set_string_array("compatible_printers", none);
    (name, file_name)
}

// ---------------------------------------------------------------------------
// Reading back what was applied
// ---------------------------------------------------------------------------

/// The decimal text of a count is digits worth that count.
pub(crate) proof fn lemma_decimal_digits(n: nat)
    ensures
        decimal(n).len() > 0,
        all_digits(decimal(n)),
        digits_value(decimal(n)) == n,
        decimal(n)[0] != '+',
    decreases n,
{
    if n >= 10 {
        lemma_decimal_digits(n / 10);
        let d = decimal(n / 10);
        let s = d.push(digit_char((n % 10) as int));
        assert(s.drop_last() == d);
        assert forall|i: int| 0 <= i < s.len() implies is_digit(#[trigger] s[i]) by {
            if i < d.len() {
                assert(s[i] == d[i]);
            }
        }
        assert(digit_value(digit_char((n % 10) as int)) == n % 10);
        assert(s[0] == d[0]);
        assert(decimal(n) == s);
        assert(s.last() == digit_char((n % 10) as int));
        assert(digits_value(s) == digits_value(d) * 10 + digit_value(s.last()));
        assert((n / 10) * 10 + n % 10 == n);
    } else {
        let s = decimal(n);
        assert(s.drop_last() =~= Seq::<char>::empty());
        assert(digits_value(s.drop_last()) == 0);
        assert(digit_value(digit_char(n as int)) == n);
        assert(digits_value(s) == digit_value(s.last()));
    }
}

/// Reading a 16-bit count back from its decimal text.
proof fn lemma_parse_u16_decimal(n: nat)
    requires
        n <= 65535,
    ensures
        parse_u16_spec(decimal(n)) == Some(n as u16),
{
    lemma_decimal_digits(n);
    assert(unsigned_digits(decimal(n)) == Some(decimal(n)));
}

/// Reading an 8-bit count back from its decimal text.
proof fn lemma_parse_u8_decimal(n: nat)
    requires
        n <= 255,
    ensures
        parse_u8_spec(decimal(n)) == Some(n as u8),
{
    lemma_decimal_digits(n);
    assert(unsigned_digits(decimal(n)) == Some(decimal(n)));
}

/// The first string of a dual value is its text.
proof fn lemma_first_of_dual(es: Entries, key: Seq<char>, t: Seq<char>)
    requires
        lookup(es, key) == Some(dual(t)),
    ensures
        first_string(es, key) == Some(t),
{
    let items = seq![t, t].map_values(|s: Seq<char>| ItemView::Str(s));
    assert(dual(t) == ValueView::Array(items));
    assert(as_string_array(dual(t)) == Some(seq![t, t])) by {
        assert(items.map_values(|x: ItemView| match x {
            ItemView::Str(s) => s,
            ItemView::Json(s) => s,
        }) =~= seq![t, t]);
    }
}

/// Setting an optional dual value: the key reads it, other keys keep theirs.
proof fn lemma_set_dual_opt(es: Entries, key: Seq<char>, v: Option<Seq<char>>, other: Seq<char>)
    requires
        keys_distinct(es),
    ensures
        keys_distinct(set_dual_opt(es, key, v)),
        other != key ==> lookup(set_dual_opt(es, key, v), other) == lookup(es, other),
        v matches Some(t) ==> lookup(set_dual_opt(es, key, v), key) == Some(dual(t)),
{
    if let Some(t) = v {
        lemma_with_entry(es, key, dual(t), other);
    }
}

/// The keys `apply_nozzle` writes.
pub open spec fn nozzle_keys() -> Seq<Seq<char>> {
    seq!["nozzle_temperature"@, "nozzle_temperature_initial_layer"@, "nozzle_temperature_range_high"@, "nozzle_temperature_range_low"@]
}

/// What `apply_nozzle` does to the entries: each key it writes reads the value
/// written, every other key keeps its value.
proof fn lemma_apply_nozzle(es: Entries, sp: FilamentSpecs, other: Seq<char>)
    requires
        keys_distinct(es),
    ensures
        keys_distinct(apply_nozzle(es, sp)),
        other != "nozzle_temperature"@ && other != "nozzle_temperature_initial_layer"@ && other != "nozzle_temperature_range_high"@ && other != "nozzle_temperature_range_low"@ ==> lookup(apply_nozzle(es, sp), other) == lookup(es, other),
        dec_opt(or_nat(nat16(sp.nozzle_temperature), nat16(sp.nozzle_temp_max))) matches Some(t) ==> lookup(apply_nozzle(es, sp), "nozzle_temperature"@) == Some(dual(t)),
        dec_opt(or_nat(nat16(sp.nozzle_temperature_initial_layer), or_nat(plus(nat16(sp.nozzle_temperature), 5), plus(nat16(sp.nozzle_temp_max), 5)))) matches Some(t) ==> lookup(apply_nozzle(es, sp), "nozzle_temperature_initial_layer"@) == Some(dual(t)),
        dec_opt(plus(nat16(sp.nozzle_temp_max), 20)) matches Some(t) ==> lookup(apply_nozzle(es, sp), "nozzle_temperature_range_high"@) == Some(dual(t)),
        dec_opt(nat16(sp.nozzle_temp_min)) matches Some(t) ==> lookup(apply_nozzle(es, sp), "nozzle_temperature_range_low"@) == Some(dual(t)),
{
    reveal(apply_nozzle);
    reveal_strlit("nozzle_temperature");
    reveal_strlit("nozzle_temperature_initial_layer");
    reveal_strlit("nozzle_temperature_range_high");
    reveal_strlit("nozzle_temperature_range_low");
    assert("nozzle_temperature"@.len() == 18);
    assert("nozzle_temperature_initial_layer"@.len() == 32);
    assert("nozzle_temperature_range_high"@.len() == 29);
    assert("nozzle_temperature_range_low"@.len() == 28);
    let e0 = es;
    let e1 = set_dual_opt(e0, "nozzle_temperature"@, dec_opt(or_nat(nat16(sp.nozzle_temperature), nat16(sp.nozzle_temp_max))));
    let e2 = set_dual_opt(e1, "nozzle_temperature_initial_layer"@, dec_opt(or_nat(nat16(sp.nozzle_temperature_initial_layer), or_nat(plus(nat16(sp.nozzle_temperature), 5), plus(nat16(sp.nozzle_temp_max), 5)))));
    let e3 = set_dual_opt(e2, "nozzle_temperature_range_high"@, dec_opt(plus(nat16(sp.nozzle_temp_max), 20)));
    let e4 = set_dual_opt(e3, "nozzle_temperature_range_low"@, dec_opt(nat16(sp.nozzle_temp_min)));
    assert(apply_nozzle(es, sp) == e4);
    lemma_set_dual_opt(e0, "nozzle_temperature"@, dec_opt(or_nat(nat16(sp.nozzle_temperature), nat16(sp.nozzle_temp_max))), other);
    lemma_set_dual_opt(e1, "nozzle_temperature_initial_layer"@, dec_opt(or_nat(nat16(sp.nozzle_temperature_initial_layer), or_nat(plus(nat16(sp.nozzle_temperature), 5), plus(nat16(sp.nozzle_temp_max), 5)))), other);
    lemma_set_dual_opt(e2, "nozzle_temperature_range_high"@, dec_opt(plus(nat16(sp.nozzle_temp_max), 20)), other);
    lemma_set_dual_opt(e3, "nozzle_temperature_range_low"@, dec_opt(nat16(sp.nozzle_temp_min)), other);
    lemma_set_dual_opt(e1, "nozzle_temperature_initial_layer"@, dec_opt(or_nat(nat16(sp.nozzle_temperature_initial_layer), or_nat(plus(nat16(sp.nozzle_temperature), 5), plus(nat16(sp.nozzle_temp_max), 5)))), "nozzle_temperature"@);
    lemma_set_dual_opt(e2, "nozzle_temperature_range_high"@, dec_opt(plus(nat16(sp.nozzle_temp_max), 20)), "nozzle_temperature"@);
    lemma_set_dual_opt(e3, "nozzle_temperature_range_low"@, dec_opt(nat16(sp.nozzle_temp_min)), "nozzle_temperature"@);
    lemma_set_dual_opt(e2, "nozzle_temperature_range_high"@, dec_opt(plus(nat16(sp.nozzle_temp_max), 20)), "nozzle_temperature_initial_layer"@);
    lemma_set_dual_opt(e3, "nozzle_temperature_range_low"@, dec_opt(nat16(sp.nozzle_temp_min)), "nozzle_temperature_initial_layer"@);
    lemma_set_dual_opt(e3, "nozzle_temperature_range_low"@, dec_opt(nat16(sp.nozzle_temp_min)), "nozzle_temperature_range_high"@);
}

/// What `apply_plates` does to the entries: each key it writes reads the value
/// written, every other key keeps its value.
proof fn lemma_apply_plates(es: Entries, sp: FilamentSpecs, other: Seq<char>)
    requires
        keys_distinct(es),
    ensures
        keys_distinct(apply_plates(es, sp)),
        other != "hot_plate_temp"@ && other != "hot_plate_temp_initial_layer"@ && other != "cool_plate_temp"@ && other != "cool_plate_temp_initial_layer"@ && other != "eng_plate_temp"@ && other != "eng_plate_temp_initial_layer"@ && other != "textured_plate_temp"@ && other != "textured_plate_temp_initial_layer"@ ==> lookup(apply_plates(es, sp), other) == lookup(es, other),
        dec_opt(or_nat(nat16(sp.hot_plate_temp), nat16(sp.bed_temp_max))) matches Some(t) ==> lookup(apply_plates(es, sp), "hot_plate_temp"@) == Some(dual(t)),
        dec_opt(or_nat(nat16(sp.hot_plate_temp_initial_layer), or_nat(nat16(sp.hot_plate_temp), nat16(sp.bed_temp_max)))) matches Some(t) ==> lookup(apply_plates(es, sp), "hot_plate_temp_initial_layer"@) == Some(dual(t)),
        dec_opt(or_nat(nat16(sp.cool_plate_temp), nat16(sp.bed_temp_min))) matches Some(t) ==> lookup(apply_plates(es, sp), "cool_plate_temp"@) == Some(dual(t)),
        dec_opt(or_nat(nat16(sp.cool_plate_temp_initial_layer), or_nat(nat16(sp.cool_plate_temp), nat16(sp.bed_temp_min)))) matches Some(t) ==> lookup(apply_plates(es, sp), "cool_plate_temp_initial_layer"@) == Some(dual(t)),
        dec_opt(or_nat(nat16(sp.eng_plate_temp), nat16(sp.bed_temp_max))) matches Some(t) ==> lookup(apply_plates(es, sp), "eng_plate_temp"@) == Some(dual(t)),
        dec_opt(or_nat(nat16(sp.eng_plate_temp_initial_layer), or_nat(nat16(sp.eng_plate_temp), nat16(sp.bed_temp_max)))) matches Some(t) ==> lookup(apply_plates(es, sp), "eng_plate_temp_initial_layer"@) == Some(dual(t)),
        dec_opt(or_nat(nat16(sp.textured_plate_temp), minus_sat(nat16(sp.bed_temp_min), 5))) matches Some(t) ==> lookup(apply_plates(es, sp), "textured_plate_temp"@) == Some(dual(t)),
        dec_opt(or_nat(nat16(sp.textured_plate_temp_initial_layer), or_nat(nat16(sp.textured_plate_temp), minus_sat(nat16(sp.bed_temp_min), 5)))) matches Some(t) ==> lookup(apply_plates(es, sp), "textured_plate_temp_initial_layer"@) == Some(dual(t)),
{
    reveal(apply_plates);
    reveal_strlit("hot_plate_temp");
    reveal_strlit("hot_plate_temp_initial_layer");
    reveal_strlit("cool_plate_temp");
    reveal_strlit("cool_plate_temp_initial_layer");
    reveal_strlit("eng_plate_temp");
    reveal_strlit("eng_plate_temp_initial_layer");
    reveal_strlit("textured_plate_temp");
    reveal_strlit("textured_plate_temp_initial_layer");
    assert("cool_plate_temp"@.len() == 15);
    assert("cool_plate_temp_initial_layer"@.len() == 29);
    assert("eng_plate_temp"@.len() == 14);
    assert("eng_plate_temp_initial_layer"@.len() == 28);
    assert("hot_plate_temp"@.len() == 14);
    assert("hot_plate_temp_initial_layer"@.len() == 28);
    assert("textured_plate_temp"@.len() == 19);
    assert("textured_plate_temp_initial_layer"@.len() == 33);
    assert("hot_plate_temp"@[0] != "eng_plate_temp"@[0]);
    assert("hot_plate_temp_initial_layer"@[0] != "eng_plate_temp_initial_layer"@[0]);
    let e0 = es;
    let e1 = set_dual_opt(e0, "hot_plate_temp"@, dec_opt(or_nat(nat16(sp.hot_plate_temp), nat16(sp.bed_temp_max))));
    let e2 = set_dual_opt(e1, "hot_plate_temp_initial_layer"@, dec_opt(or_nat(nat16(sp.hot_plate_temp_initial_layer), or_nat(nat16(sp.hot_plate_temp), nat16(sp.bed_temp_max)))));
    let e3 = set_dual_opt(e2, "cool_plate_temp"@, dec_opt(or_nat(nat16(sp.cool_plate_temp), nat16(sp.bed_temp_min))));
    let e4 = set_dual_opt(e3, "cool_plate_temp_initial_layer"@, dec_opt(or_nat(nat16(sp.cool_plate_temp_initial_layer), or_nat(nat16(sp.cool_plate_temp), nat16(sp.bed_temp_min)))));
    let e5 = set_dual_opt(e4, "eng_plate_temp"@, dec_opt(or_nat(nat16(sp.eng_plate_temp), nat16(sp.bed_temp_max))));
    let e6 = set_dual_opt(e5, "eng_plate_temp_initial_layer"@, dec_opt(or_nat(nat16(sp.eng_plate_temp_initial_layer), or_nat(nat16(sp.eng_plate_temp), nat16(sp.bed_temp_max)))));
    let e7 = set_dual_opt(e6, "textured_plate_temp"@, dec_opt(or_nat(nat16(sp.textured_plate_temp), minus_sat(nat16(sp.bed_temp_min), 5))));
    let e8 = set_dual_opt(e7, "textured_plate_temp_initial_layer"@, dec_opt(or_nat(nat16(sp.textured_plate_temp_initial_layer), or_nat(nat16(sp.textured_plate_temp), minus_sat(nat16(sp.bed_temp_min), 5)))));
    assert(apply_plates(es, sp) == e8);
    lemma_set_dual_opt(e0, "hot_plate_temp"@, dec_opt(or_nat(nat16(sp.hot_plate_temp), nat16(sp.bed_temp_max))), other);
    lemma_set_dual_opt(e1, "hot_plate_temp_initial_layer"@, dec_opt(or_nat(nat16(sp.hot_plate_temp_initial_layer), or_nat(nat16(sp.hot_plate_temp), nat16(sp.bed_temp_max)))), other);
    lemma_set_dual_opt(e2, "cool_plate_temp"@, dec_opt(or_nat(nat16(sp.cool_plate_temp), nat16(sp.bed_temp_min))), other);
    lemma_set_dual_opt(e3, "cool_plate_temp_initial_layer"@, dec_opt(or_nat(nat16(sp.cool_plate_temp_initial_layer), or_nat(nat16(sp.cool_plate_temp), nat16(sp.bed_temp_min)))), other);
    lemma_set_dual_opt(e4, "eng_plate_temp"@, dec_opt(or_nat(nat16(sp.eng_plate_temp), nat16(sp.bed_temp_max))), other);
    lemma_set_dual_opt(e5, "eng_plate_temp_initial_layer"@, dec_opt(or_nat(nat16(sp.eng_plate_temp_initial_layer), or_nat(nat16(sp.eng_plate_temp), nat16(sp.bed_temp_max)))), other);
    lemma_set_dual_opt(e6, "textured_plate_temp"@, dec_opt(or_nat(nat16(sp.textured_plate_temp), minus_sat(nat16(sp.bed_temp_min), 5))), other);
    lemma_set_dual_opt(e7, "textured_plate_temp_initial_layer"@, dec_opt(or_nat(nat16(sp.textured_plate_temp_initial_layer), or_nat(nat16(sp.textured_plate_temp), minus_sat(nat16(sp.bed_temp_min), 5)))), other);
    lemma_set_dual_opt(e1, "hot_plate_temp_initial_layer"@, dec_opt(or_nat(nat16(sp.hot_plate_temp_initial_layer), or_nat(nat16(sp.hot_plate_temp), nat16(sp.bed_temp_max)))), "hot_plate_temp"@);
    lemma_set_dual_opt(e2, "cool_plate_temp"@, dec_opt(or_nat(nat16(sp.cool_plate_temp), nat16(sp.bed_temp_min))), "hot_plate_temp"@);
    lemma_set_dual_opt(e3, "cool_plate_temp_initial_layer"@, dec_opt(or_nat(nat16(sp.cool_plate_temp_initial_layer), or_nat(nat16(sp.cool_plate_temp), nat16(sp.bed_temp_min)))), "hot_plate_temp"@);
    lemma_set_dual_opt(e4, "eng_plate_temp"@, dec_opt(or_nat(nat16(sp.eng_plate_temp), nat16(sp.bed_temp_max))), "hot_plate_temp"@);
    lemma_set_dual_opt(e5, "eng_plate_temp_initial_layer"@, dec_opt(or_nat(nat16(sp.eng_plate_temp_initial_layer), or_nat(nat16(sp.eng_plate_temp), nat16(sp.bed_temp_max)))), "hot_plate_temp"@);
    lemma_set_dual_opt(e6, "textured_plate_temp"@, dec_opt(or_nat(nat16(sp.textured_plate_temp), minus_sat(nat16(sp.bed_temp_min), 5))), "hot_plate_temp"@);
    lemma_set_dual_opt(e7, "textured_plate_temp_initial_layer"@, dec_opt(or_nat(nat16(sp.textured_plate_temp_initial_layer), or_nat(nat16(sp.textured_plate_temp), minus_sat(nat16(sp.bed_temp_min), 5)))), "hot_plate_temp"@);
    lemma_set_dual_opt(e2, "cool_plate_temp"@, dec_opt(or_nat(nat16(sp.cool_plate_temp), nat16(sp.bed_temp_min))), "hot_plate_temp_initial_layer"@);
    lemma_set_dual_opt(e3, "cool_plate_temp_initial_layer"@, dec_opt(or_nat(nat16(sp.cool_plate_temp_initial_layer), or_nat(nat16(sp.cool_plate_temp), nat16(sp.bed_temp_min)))), "hot_plate_temp_initial_layer"@);
    lemma_set_dual_opt(e4, "eng_plate_temp"@, dec_opt(or_nat(nat16(sp.eng_plate_temp), nat16(sp.bed_temp_max))), "hot_plate_temp_initial_layer"@);
    lemma_set_dual_opt(e5, "eng_plate_temp_initial_layer"@, dec_opt(or_nat(nat16(sp.eng_plate_temp_initial_layer), or_nat(nat16(sp.eng_plate_temp), nat16(sp.bed_temp_max)))), "hot_plate_temp_initial_layer"@);
    lemma_set_dual_opt(e6, "textured_plate_temp"@, dec_opt(or_nat(nat16(sp.textured_plate_temp), minus_sat(nat16(sp.bed_temp_min), 5))), "hot_plate_temp_initial_layer"@);
    lemma_set_dual_opt(e7, "textured_plate_temp_initial_layer"@, dec_opt(or_nat(nat16(sp.textured_plate_temp_initial_layer), or_nat(nat16(sp.textured_plate_temp), minus_sat(nat16(sp.bed_temp_min), 5)))), "hot_plate_temp_initial_layer"@);
    lemma_set_dual_opt(e3, "cool_plate_temp_initial_layer"@, dec_opt(or_nat(nat16(sp.cool_plate_temp_initial_layer), or_nat(nat16(sp.cool_plate_temp), nat16(sp.bed_temp_min)))), "cool_plate_temp"@);
    lemma_set_dual_opt(e4, "eng_plate_temp"@, dec_opt(or_nat(nat16(sp.eng_plate_temp), nat16(sp.bed_temp_max))), "cool_plate_temp"@);
    lemma_set_dual_opt(e5, "eng_plate_temp_initial_layer"@, dec_opt(or_nat(nat16(sp.eng_plate_temp_initial_layer), or_nat(nat16(sp.eng_plate_temp), nat16(sp.bed_temp_max)))), "cool_plate_temp"@);
    lemma_set_dual_opt(e6, "textured_plate_temp"@, dec_opt(or_nat(nat16(sp.textured_plate_temp), minus_sat(nat16(sp.bed_temp_min), 5))), "cool_plate_temp"@);
    lemma_set_dual_opt(e7, "textured_plate_temp_initial_layer"@, dec_opt(or_nat(nat16(sp.textured_plate_temp_initial_layer), or_nat(nat16(sp.textured_plate_temp), minus_sat(nat16(sp.bed_temp_min), 5)))), "cool_plate_temp"@);
    lemma_set_dual_opt(e4, "eng_plate_temp"@, dec_opt(or_nat(nat16(sp.eng_plate_temp), nat16(sp.bed_temp_max))), "cool_plate_temp_initial_layer"@);
    lemma_set_dual_opt(e5, "eng_plate_temp_initial_layer"@, dec_opt(or_nat(nat16(sp.eng_plate_temp_initial_layer), or_nat(nat16(sp.eng_plate_temp), nat16(sp.bed_temp_max)))), "cool_plate_temp_initial_layer"@);
    lemma_set_dual_opt(e6, "textured_plate_temp"@, dec_opt(or_nat(nat16(sp.textured_plate_temp), minus_sat(nat16(sp.bed_temp_min), 5))), "cool_plate_temp_initial_layer"@);
    lemma_set_dual_opt(e7, "textured_plate_temp_initial_layer"@, dec_opt(or_nat(nat16(sp.textured_plate_temp_initial_layer), or_nat(nat16(sp.textured_plate_temp), minus_sat(nat16(sp.bed_temp_min), 5)))), "cool_plate_temp_initial_layer"@);
    lemma_set_dual_opt(e5, "eng_plate_temp_initial_layer"@, dec_opt(or_nat(nat16(sp.eng_plate_temp_initial_layer), or_nat(nat16(sp.eng_plate_temp), nat16(sp.bed_temp_max)))), "eng_plate_temp"@);
    lemma_set_dual_opt(e6, "textured_plate_temp"@, dec_opt(or_nat(nat16(sp.textured_plate_temp), minus_sat(nat16(sp.bed_temp_min), 5))), "eng_plate_temp"@);
    lemma_set_dual_opt(e7, "textured_plate_temp_initial_layer"@, dec_opt(or_nat(nat16(sp.textured_plate_temp_initial_layer), or_nat(nat16(sp.textured_plate_temp), minus_sat(nat16(sp.bed_temp_min), 5)))), "eng_plate_temp"@);
    lemma_set_dual_opt(e6, "textured_plate_temp"@, dec_opt(or_nat(nat16(sp.textured_plate_temp), minus_sat(nat16(sp.bed_temp_min), 5))), "eng_plate_temp_initial_layer"@);
    lemma_set_dual_opt(e7, "textured_plate_temp_initial_layer"@, dec_opt(or_nat(nat16(sp.textured_plate_temp_initial_layer), or_nat(nat16(sp.textured_plate_temp), minus_sat(nat16(sp.bed_temp_min), 5)))), "eng_plate_temp_initial_layer"@);
    lemma_set_dual_opt(e7, "textured_plate_temp_initial_layer"@, dec_opt(or_nat(nat16(sp.textured_plate_temp_initial_layer), or_nat(nat16(sp.textured_plate_temp), minus_sat(nat16(sp.bed_temp_min), 5)))), "textured_plate_temp"@);
}

/// What `apply_flow` does to the entries: each key it writes reads the value
/// written, every other key keeps its value.
proof fn lemma_apply_flow(es: Entries, sp: FilamentSpecs, other: Seq<char>)
    requires
        keys_distinct(es),
    ensures
        keys_distinct(apply_flow(es, sp)),
        other != "filament_max_volumetric_speed"@ && other != "filament_flow_ratio"@ && other != "pressure_advance"@ ==> lookup(apply_flow(es, sp), other) == lookup(es, other),
        fixed_opt(sp.max_volumetric_speed, 0) matches Some(t) ==> lookup(apply_flow(es, sp), "filament_max_volumetric_speed"@) == Some(dual(t)),
        fixed_opt(sp.filament_flow_ratio, 2) matches Some(t) ==> lookup(apply_flow(es, sp), "filament_flow_ratio"@) == Some(dual(t)),
        fixed_opt(sp.pressure_advance, 3) matches Some(t) ==> lookup(apply_flow(es, sp), "pressure_advance"@) == Some(dual(t)),
{
    reveal(apply_flow);
    reveal_strlit("filament_max_volumetric_speed");
    reveal_strlit("filament_flow_ratio");
    reveal_strlit("pressure_advance");
    assert("filament_flow_ratio"@.len() == 19);
    assert("filament_max_volumetric_speed"@.len() == 29);
    assert("pressure_advance"@.len() == 16);
    let e0 = es;
    let e1 = set_dual_opt(e0, "filament_max_volumetric_speed"@, fixed_opt(sp.max_volumetric_speed, 0));
    let e2 = set_dual_opt(e1, "filament_flow_ratio"@, fixed_opt(sp.filament_flow_ratio, 2));
    let e3 = set_dual_opt(e2, "pressure_advance"@, fixed_opt(sp.pressure_advance, 3));
    assert(apply_flow(es, sp) == e3);
    lemma_set_dual_opt(e0, "filament_max_volumetric_speed"@, fixed_opt(sp.max_volumetric_speed, 0), other);
    lemma_set_dual_opt(e1, "filament_flow_ratio"@, fixed_opt(sp.filament_flow_ratio, 2), other);
    lemma_set_dual_opt(e2, "pressure_advance"@, fixed_opt(sp.pressure_advance, 3), other);
    lemma_set_dual_opt(e1, "filament_flow_ratio"@, fixed_opt(sp.filament_flow_ratio, 2), "filament_max_volumetric_speed"@);
    lemma_set_dual_opt(e2, "pressure_advance"@, fixed_opt(sp.pressure_advance, 3), "filament_max_volumetric_speed"@);
    lemma_set_dual_opt(e2, "pressure_advance"@, fixed_opt(sp.pressure_advance, 3), "filament_flow_ratio"@);
}

/// What `apply_fans` does to the entries: each key it writes reads the value
/// written, every other key keeps its value.
proof fn lemma_apply_fans(es: Entries, sp: FilamentSpecs, other: Seq<char>)
    requires
        keys_distinct(es),
    ensures
        keys_distinct(apply_fans(es, sp)),
        other != "fan_max_speed"@ && other != "fan_min_speed"@ && other != "overhang_fan_speed"@ && other != "close_fan_the_first_x_layers"@ && other != "additional_cooling_fan_speed"@ ==> lookup(apply_fans(es, sp), other) == lookup(es, other),
        dec_opt(or_nat(nat8(sp.fan_max_speed), nat8(sp.fan_speed_percent))) matches Some(t) ==> lookup(apply_fans(es, sp), "fan_max_speed"@) == Some(dual(t)),
        dec_opt(or_nat(nat8(sp.fan_min_speed), match nat8(sp.fan_speed_percent) { Some(f) => Some(f * 6 / 10), None => None })) matches Some(t) ==> lookup(apply_fans(es, sp), "fan_min_speed"@) == Some(dual(t)),
        dec_opt(nat8(sp.overhang_fan_speed)) matches Some(t) ==> lookup(apply_fans(es, sp), "overhang_fan_speed"@) == Some(dual(t)),
        dec_opt(nat8(sp.close_fan_the_first_x_layers)) matches Some(t) ==> lookup(apply_fans(es, sp), "close_fan_the_first_x_layers"@) == Some(dual(t)),
        dec_opt(nat8(sp.additional_cooling_fan_speed)) matches Some(t) ==> lookup(apply_fans(es, sp), "additional_cooling_fan_speed"@) == Some(dual(t)),
{
    reveal(apply_fans);
    reveal_strlit("fan_max_speed");
    reveal_strlit("fan_min_speed");
    reveal_strlit("overhang_fan_speed");
    reveal_strlit("close_fan_the_first_x_layers");
    reveal_strlit("additional_cooling_fan_speed");
    assert("additional_cooling_fan_speed"@.len() == 28);
    assert("close_fan_the_first_x_layers"@.len() == 28);
    assert("fan_max_speed"@.len() == 13);
    assert("fan_min_speed"@.len() == 13);
    assert("overhang_fan_speed"@.len() == 18);
    assert("fan_max_speed"@[5] != "fan_min_speed"@[5]);
    assert("close_fan_the_first_x_layers"@[0] != "additional_cooling_fan_speed"@[0]);
    let e0 = es;
    let e1 = set_dual_opt(e0, "fan_max_speed"@, dec_opt(or_nat(nat8(sp.fan_max_speed), nat8(sp.fan_speed_percent))));
    let e2 = set_dual_opt(e1, "fan_min_speed"@, dec_opt(or_nat(nat8(sp.fan_min_speed), match nat8(sp.fan_speed_percent) { Some(f) => Some(f * 6 / 10), None => None })));
    let e3 = set_dual_opt(e2, "overhang_fan_speed"@, dec_opt(nat8(sp.overhang_fan_speed)));
    let e4 = set_dual_opt(e3, "close_fan_the_first_x_layers"@, dec_opt(nat8(sp.close_fan_the_first_x_layers)));
    let e5 = set_dual_opt(e4, "additional_cooling_fan_speed"@, dec_opt(nat8(sp.additional_cooling_fan_speed)));
    assert(apply_fans(es, sp) == e5);
    lemma_set_dual_opt(e0, "fan_max_speed"@, dec_opt(or_nat(nat8(sp.fan_max_speed), nat8(sp.fan_speed_percent))), other);
    lemma_set_dual_opt(e1, "fan_min_speed"@, dec_opt(or_nat(nat8(sp.fan_min_speed), match nat8(sp.fan_speed_percent) { Some(f) => Some(f * 6 / 10), None => None })), other);
    lemma_set_dual_opt(e2, "overhang_fan_speed"@, dec_opt(nat8(sp.overhang_fan_speed)), other);
    lemma_set_dual_opt(e3, "close_fan_the_first_x_layers"@, dec_opt(nat8(sp.close_fan_the_first_x_layers)), other);
    lemma_set_dual_opt(e4, "additional_cooling_fan_speed"@, dec_opt(nat8(sp.additional_cooling_fan_speed)), other);
    lemma_set_dual_opt(e1, "fan_min_speed"@, dec_opt(or_nat(nat8(sp.fan_min_speed), match nat8(sp.fan_speed_percent) { Some(f) => Some(f * 6 / 10), None => None })), "fan_max_speed"@);
    lemma_set_dual_opt(e2, "overhang_fan_speed"@, dec_opt(nat8(sp.overhang_fan_speed)), "fan_max_speed"@);
    lemma_set_dual_opt(e3, "close_fan_the_first_x_layers"@, dec_opt(nat8(sp.close_fan_the_first_x_layers)), "fan_max_speed"@);
    lemma_set_dual_opt(e4, "additional_cooling_fan_speed"@, dec_opt(nat8(sp.additional_cooling_fan_speed)), "fan_max_speed"@);
    lemma_set_dual_opt(e2, "overhang_fan_speed"@, dec_opt(nat8(sp.overhang_fan_speed)), "fan_min_speed"@);
    lemma_set_dual_opt(e3, "close_fan_the_first_x_layers"@, dec_opt(nat8(sp.close_fan_the_first_x_layers)), "fan_min_speed"@);
    lemma_set_dual_opt(e4, "additional_cooling_fan_speed"@, dec_opt(nat8(sp.additional_cooling_fan_speed)), "fan_min_speed"@);
    lemma_set_dual_opt(e3, "close_fan_the_first_x_layers"@, dec_opt(nat8(sp.close_fan_the_first_x_layers)), "overhang_fan_speed"@);
    lemma_set_dual_opt(e4, "additional_cooling_fan_speed"@, dec_opt(nat8(sp.additional_cooling_fan_speed)), "overhang_fan_speed"@);
    lemma_set_dual_opt(e4, "additional_cooling_fan_speed"@, dec_opt(nat8(sp.additional_cooling_fan_speed)), "close_fan_the_first_x_layers"@);
}

/// What `apply_motion` does to the entries: each key it writes reads the value
/// written, every other key keeps its value.
proof fn lemma_apply_motion(es: Entries, sp: FilamentSpecs, other: Seq<char>)
    requires
        keys_distinct(es),
    ensures
        keys_distinct(apply_motion(es, sp)),
        other != "slow_down_layer_time"@ && other != "slow_down_min_speed"@ && other != "filament_retraction_length"@ && other != "filament_retraction_speed"@ && other != "filament_deretraction_speed"@ && other != "filament_bridge_speed"@ ==> lookup(apply_motion(es, sp), other) == lookup(es, other),
        dec_opt(nat8(sp.slow_down_layer_time)) matches Some(t) ==> lookup(apply_motion(es, sp), "slow_down_layer_time"@) == Some(dual(t)),
        dec_opt(nat16(sp.slow_down_min_speed)) matches Some(t) ==> lookup(apply_motion(es, sp), "slow_down_min_speed"@) == Some(dual(t)),
        fixed_opt(sp.retraction_distance_mm, 1) matches Some(t) ==> lookup(apply_motion(es, sp), "filament_retraction_length"@) == Some(dual(t)),
        dec_opt(nat16(sp.retraction_speed_mm_s)) matches Some(t) ==> lookup(apply_motion(es, sp), "filament_retraction_speed"@) == Some(dual(t)),
        dec_opt(nat16(sp.deretraction_speed_mm_s)) matches Some(t) ==> lookup(apply_motion(es, sp), "filament_deretraction_speed"@) == Some(dual(t)),
        dec_opt(nat16(sp.bridge_speed)) matches Some(t) ==> lookup(apply_motion(es, sp), "filament_bridge_speed"@) == Some(dual(t)),
{
    reveal(apply_motion);
    reveal_strlit("slow_down_layer_time");
    reveal_strlit("slow_down_min_speed");
    reveal_strlit("filament_retraction_length");
    reveal_strlit("filament_retraction_speed");
    reveal_strlit("filament_deretraction_speed");
    reveal_strlit("filament_bridge_speed");
    assert("filament_bridge_speed"@.len() == 21);
    assert("filament_deretraction_speed"@.len() == 27);
    assert("filament_retraction_length"@.len() == 26);
    assert("filament_retraction_speed"@.len() == 25);
    assert("slow_down_layer_time"@.len() == 20);
    assert("slow_down_min_speed"@.len() == 19);
    let e0 = es;
    let e1 = set_dual_opt(e0, "slow_down_layer_time"@, dec_opt(nat8(sp.slow_down_layer_time)));
    let e2 = set_dual_opt(e1, "slow_down_min_speed"@, dec_opt(nat16(sp.slow_down_min_speed)));
    let e3 = set_dual_opt(e2, "filament_retraction_length"@, fixed_opt(sp.retraction_distance_mm, 1));
    let e4 = set_dual_opt(e3, "filament_retraction_speed"@, dec_opt(nat16(sp.retraction_speed_mm_s)));
    let e5 = set_dual_opt(e4, "filament_deretraction_speed"@, dec_opt(nat16(sp.deretraction_speed_mm_s)));
    let e6 = set_dual_opt(e5, "filament_bridge_speed"@, dec_opt(nat16(sp.bridge_speed)));
    assert(apply_motion(es, sp) == e6);
    lemma_set_dual_opt(e0, "slow_down_layer_time"@, dec_opt(nat8(sp.slow_down_layer_time)), other);
    lemma_set_dual_opt(e1, "slow_down_min_speed"@, dec_opt(nat16(sp.slow_down_min_speed)), other);
    lemma_set_dual_opt(e2, "filament_retraction_length"@, fixed_opt(sp.retraction_distance_mm, 1), other);
    lemma_set_dual_opt(e3, "filament_retraction_speed"@, dec_opt(nat16(sp.retraction_speed_mm_s)), other);
    lemma_set_dual_opt(e4, "filament_deretraction_speed"@, dec_opt(nat16(sp.deretraction_speed_mm_s)), other);
    lemma_set_dual_opt(e5, "filament_bridge_speed"@, dec_opt(nat16(sp.bridge_speed)), other);
    lemma_set_dual_opt(e1, "slow_down_min_speed"@, dec_opt(nat16(sp.slow_down_min_speed)), "slow_down_layer_time"@);
    lemma_set_dual_opt(e2, "filament_retraction_length"@, fixed_opt(sp.retraction_distance_mm, 1), "slow_down_layer_time"@);
    lemma_set_dual_opt(e3, "filament_retraction_speed"@, dec_opt(nat16(sp.retraction_speed_mm_s)), "slow_down_layer_time"@);
    lemma_set_dual_opt(e4, "filament_deretraction_speed"@, dec_opt(nat16(sp.deretraction_speed_mm_s)), "slow_down_layer_time"@);
    lemma_set_dual_opt(e5, "filament_bridge_speed"@, dec_opt(nat16(sp.bridge_speed)), "slow_down_layer_time"@);
    lemma_set_dual_opt(e2, "filament_retraction_length"@, fixed_opt(sp.retraction_distance_mm, 1), "slow_down_min_speed"@);
    lemma_set_dual_opt(e3, "filament_retraction_speed"@, dec_opt(nat16(sp.retraction_speed_mm_s)), "slow_down_min_speed"@);
    lemma_set_dual_opt(e4, "filament_deretraction_speed"@, dec_opt(nat16(sp.deretraction_speed_mm_s)), "slow_down_min_speed"@);
    lemma_set_dual_opt(e5, "filament_bridge_speed"@, dec_opt(nat16(sp.bridge_speed)), "slow_down_min_speed"@);
    lemma_set_dual_opt(e3, "filament_retraction_speed"@, dec_opt(nat16(sp.retraction_speed_mm_s)), "filament_retraction_length"@);
    lemma_set_dual_opt(e4, "filament_deretraction_speed"@, dec_opt(nat16(sp.deretraction_speed_mm_s)), "filament_retraction_length"@);
    lemma_set_dual_opt(e5, "filament_bridge_speed"@, dec_opt(nat16(sp.bridge_speed)), "filament_retraction_length"@);
    lemma_set_dual_opt(e4, "filament_deretraction_speed"@, dec_opt(nat16(sp.deretraction_speed_mm_s)), "filament_retraction_speed"@);
    lemma_set_dual_opt(e5, "filament_bridge_speed"@, dec_opt(nat16(sp.bridge_speed)), "filament_retraction_speed"@);
    lemma_set_dual_opt(e5, "filament_bridge_speed"@, dec_opt(nat16(sp.bridge_speed)), "filament_deretraction_speed"@);
}

/// What `apply_physical` does to the entries: each key it writes reads the value
/// written, every other key keeps its value.
proof fn lemma_apply_physical(es: Entries, sp: FilamentSpecs, other: Seq<char>)
    requires
        keys_distinct(es),
    ensures
        keys_distinct(apply_physical(es, sp)),
        other != "filament_density"@ && other != "temperature_vitrification"@ && other != "filament_cost"@ && other != "filament_type"@ && other != "filament_vendor"@ ==> lookup(apply_physical(es, sp), other) == lookup(es, other),
        fixed_opt(sp.density_g_cm3, 2) matches Some(t) ==> lookup(apply_physical(es, sp), "filament_density"@) == Some(dual(t)),
        dec_opt(nat16(sp.temperature_vitrification)) matches Some(t) ==> lookup(apply_physical(es, sp), "temperature_vitrification"@) == Some(dual(t)),
        fixed_opt(sp.filament_cost, 2) matches Some(t) ==> lookup(apply_physical(es, sp), "filament_cost"@) == Some(dual(t)),
        Some(sp.material@) matches Some(t) ==> lookup(apply_physical(es, sp), "filament_type"@) == Some(dual(t)),
        Some(sp.brand@) matches Some(t) ==> lookup(apply_physical(es, sp), "filament_vendor"@) == Some(dual(t)),
{
    reveal(apply_physical);
    reveal_strlit("filament_density");
    reveal_strlit("temperature_vitrification");
    reveal_strlit("filament_cost");
    reveal_strlit("filament_type");
    reveal_strlit("filament_vendor");
    assert("filament_cost"@.len() == 13);
    assert("filament_density"@.len() == 16);
    assert("filament_type"@.len() == 13);
    assert("filament_vendor"@.len() == 15);
    assert("temperature_vitrification"@.len() == 25);
    assert("filament_cost"@[9] != "filament_type"@[9]);
    let e0 = es;
    let e1 = set_dual_opt(e0, "filament_density"@, fixed_opt(sp.density_g_cm3, 2));
    let e2 = set_dual_opt(e1, "temperature_vitrification"@, dec_opt(nat16(sp.temperature_vitrification)));
    let e3 = set_dual_opt(e2, "filament_cost"@, fixed_opt(sp.filament_cost, 2));
    let e4 = set_dual_opt(e3, "filament_type"@, Some(sp.material@));
    let e5 = set_dual_opt(e4, "filament_vendor"@, Some(sp.brand@));
    assert(apply_physical(es, sp) == e5);
    lemma_set_dual_opt(e0, "filament_density"@, fixed_opt(sp.density_g_cm3, 2), other);
    lemma_set_dual_opt(e1, "temperature_vitrification"@, dec_opt(nat16(sp.temperature_vitrification)), other);
    lemma_set_dual_opt(e2, "filament_cost"@, fixed_opt(sp.filament_cost, 2), other);
    lemma_set_dual_opt(e3, "filament_type"@, Some(sp.material@), other);
    lemma_set_dual_opt(e4, "filament_vendor"@, Some(sp.brand@), other);
    lemma_set_dual_opt(e1, "temperature_vitrification"@, dec_opt(nat16(sp.temperature_vitrification)), "filament_density"@);
    lemma_set_dual_opt(e2, "filament_cost"@, fixed_opt(sp.filament_cost, 2), "filament_density"@);
    lemma_set_dual_opt(e3, "filament_type"@, Some(sp.material@), "filament_density"@);
    lemma_set_dual_opt(e4, "filament_vendor"@, Some(sp.brand@), "filament_density"@);
    lemma_set_dual_opt(e2, "filament_cost"@, fixed_opt(sp.filament_cost, 2), "temperature_vitrification"@);
    lemma_set_dual_opt(e3, "filament_type"@, Some(sp.material@), "temperature_vitrification"@);
    lemma_set_dual_opt(e4, "filament_vendor"@, Some(sp.brand@), "temperature_vitrification"@);
    lemma_set_dual_opt(e3, "filament_type"@, Some(sp.material@), "filament_cost"@);
    lemma_set_dual_opt(e4, "filament_vendor"@, Some(sp.brand@), "filament_cost"@);
    lemma_set_dual_opt(e4, "filament_vendor"@, Some(sp.brand@), "filament_type"@);
}

/// Reading back `nozzle_temperature` from a profile the specs were applied to.
proof fn lemma_read_back_nozzle_temperature(es: Entries, sp: FilamentSpecs)
    requires
        keys_distinct(es),
        applicable(sp),
    ensures
        sp.nozzle_temperature matches Some(x) ==> field_u16(applied(es, sp), "nozzle_temperature"@) == Some(x),
{
    reveal_strlit("nozzle_temperature");
    reveal_strlit("hot_plate_temp");
    reveal_strlit("hot_plate_temp_initial_layer");
    reveal_strlit("cool_plate_temp");
    reveal_strlit("cool_plate_temp_initial_layer");
    reveal_strlit("eng_plate_temp");
    reveal_strlit("eng_plate_temp_initial_layer");
    reveal_strlit("textured_plate_temp");
    reveal_strlit("textured_plate_temp_initial_layer");
    reveal_strlit("filament_max_volumetric_speed");
    reveal_strlit("filament_flow_ratio");
    reveal_strlit("pressure_advance");
    reveal_strlit("fan_max_speed");
    reveal_strlit("fan_min_speed");
    reveal_strlit("overhang_fan_speed");
    reveal_strlit("close_fan_the_first_x_layers");
    reveal_strlit("additional_cooling_fan_speed");
    reveal_strlit("slow_down_layer_time");
    reveal_strlit("slow_down_min_speed");
    reveal_strlit("filament_retraction_length");
    reveal_strlit("filament_retraction_speed");
    reveal_strlit("filament_deretraction_speed");
    reveal_strlit("filament_bridge_speed");
    reveal_strlit("filament_density");
    reveal_strlit("temperature_vitrification");
    reveal_strlit("filament_cost");
    reveal_strlit("filament_type");
    reveal_strlit("filament_vendor");
    assert("additional_cooling_fan_speed"@.len() == 28);
    assert("close_fan_the_first_x_layers"@.len() == 28);
    assert("cool_plate_temp"@.len() == 15);
    assert("cool_plate_temp_initial_layer"@.len() == 29);
    assert("eng_plate_temp"@.len() == 14);
    assert("eng_plate_temp_initial_layer"@.len() == 28);
    assert("fan_max_speed"@.len() == 13);
    assert("fan_min_speed"@.len() == 13);
    assert("filament_bridge_speed"@.len() == 21);
    assert("filament_cost"@.len() == 13);
    assert("filament_density"@.len() == 16);
    assert("filament_deretraction_speed"@.len() == 27);
    assert("filament_flow_ratio"@.len() == 19);
    assert("filament_max_volumetric_speed"@.len() == 29);
    assert("filament_retraction_length"@.len() == 26);
    assert("filament_retraction_speed"@.len() == 25);
    assert("filament_type"@.len() == 13);
    assert("filament_vendor"@.len() == 15);
    assert("hot_plate_temp"@.len() == 14);
    assert("hot_plate_temp_initial_layer"@.len() == 28);
    assert("nozzle_temperature"@.len() == 18);
    assert("overhang_fan_speed"@.len() == 18);
    assert("pressure_advance"@.len() == 16);
    assert("slow_down_layer_time"@.len() == 20);
    assert("slow_down_min_speed"@.len() == 19);
    assert("temperature_vitrification"@.len() == 25);
    assert("textured_plate_temp"@.len() == 19);
    assert("textured_plate_temp_initial_layer"@.len() == 33);
    assert("nozzle_temperature"@[0] != "overhang_fan_speed"@[0]);
    let e0 = es;
    let e1 = apply_nozzle(e0, sp);
    let e2 = apply_plates(e1, sp);
    let e3 = apply_flow(e2, sp);
    let e4 = apply_fans(e3, sp);
    let e5 = apply_motion(e4, sp);
    let e6 = apply_physical(e5, sp);
    reveal(applied);
    assert(applied(es, sp) == e6);
    lemma_apply_nozzle(e0, sp, "nozzle_temperature"@);
    lemma_apply_plates(e1, sp, "nozzle_temperature"@);
    lemma_apply_flow(e2, sp, "nozzle_temperature"@);
    lemma_apply_fans(e3, sp, "nozzle_temperature"@);
    lemma_apply_motion(e4, sp, "nozzle_temperature"@);
    lemma_apply_physical(e5, sp, "nozzle_temperature"@);
    if let Some(x) = sp.nozzle_temperature {
        lemma_first_of_dual(e6, "nozzle_temperature"@, decimal(x as nat));
        lemma_parse_u16_decimal(x as nat);
    }
}

/// Reading back `nozzle_temperature_initial_layer` from a profile the specs were applied to.
proof fn lemma_read_back_nozzle_temperature_initial_layer(es: Entries, sp: FilamentSpecs)
    requires
        keys_distinct(es),
        applicable(sp),
    ensures
        sp.nozzle_temperature_initial_layer matches Some(x) ==> field_u16(applied(es, sp), "nozzle_temperature_initial_layer"@) == Some(x),
{
    reveal_strlit("nozzle_temperature_initial_layer");
    reveal_strlit("hot_plate_temp");
    reveal_strlit("hot_plate_temp_initial_layer");
    reveal_strlit("cool_plate_temp");
    reveal_strlit("cool_plate_temp_initial_layer");
    reveal_strlit("eng_plate_temp");
    reveal_strlit("eng_plate_temp_initial_layer");
    reveal_strlit("textured_plate_temp");
    reveal_strlit("textured_plate_temp_initial_layer");
    reveal_strlit("filament_max_volumetric_speed");
    reveal_strlit("filament_flow_ratio");
    reveal_strlit("pressure_advance");
    reveal_strlit("fan_max_speed");
    reveal_strlit("fan_min_speed");
    reveal_strlit("overhang_fan_speed");
    reveal_strlit("close_fan_the_first_x_layers");
    reveal_strlit("additional_cooling_fan_speed");
    reveal_strlit("slow_down_layer_time");
    reveal_strlit("slow_down_min_speed");
    reveal_strlit("filament_retraction_length");
    reveal_strlit("filament_retraction_speed");
    reveal_strlit("filament_deretraction_speed");
    reveal_strlit("filament_bridge_speed");
    reveal_strlit("filament_density");
    reveal_strlit("temperature_vitrification");
    reveal_strlit("filament_cost");
    reveal_strlit("filament_type");
    reveal_strlit("filament_vendor");
    assert("additional_cooling_fan_speed"@.len() == 28);
    assert("close_fan_the_first_x_layers"@.len() == 28);
    assert("cool_plate_temp"@.len() == 15);
    assert("cool_plate_temp_initial_layer"@.len() == 29);
    assert("eng_plate_temp"@.len() == 14);
    assert("eng_plate_temp_initial_layer"@.len() == 28);
    assert("fan_max_speed"@.len() == 13);
    assert("fan_min_speed"@.len() == 13);
    assert("filament_bridge_speed"@.len() == 21);
    assert("filament_cost"@.len() == 13);
    assert("filament_density"@.len() == 16);
    assert("filament_deretraction_speed"@.len() == 27);
    assert("filament_flow_ratio"@.len() == 19);
    assert("filament_max_volumetric_speed"@.len() == 29);
    assert("filament_retraction_length"@.len() == 26);
    assert("filament_retraction_speed"@.len() == 25);
    assert("filament_type"@.len() == 13);
    assert("filament_vendor"@.len() == 15);
    assert("hot_plate_temp"@.len() == 14);
    assert("hot_plate_temp_initial_layer"@.len() == 28);
    assert("nozzle_temperature_initial_layer"@.len() == 32);
    assert("overhang_fan_speed"@.len() == 18);
    assert("pressure_advance"@.len() == 16);
    assert("slow_down_layer_time"@.len() == 20);
    assert("slow_down_min_speed"@.len() == 19);
    assert("temperature_vitrification"@.len() == 25);
    assert("textured_plate_temp"@.len() == 19);
    assert("textured_plate_temp_initial_layer"@.len() == 33);
    let e0 = es;
    let e1 = apply_nozzle(e0, sp);
    let e2 = apply_plates(e1, sp);
    let e3 = apply_flow(e2, sp);
    let e4 = apply_fans(e3, sp);
    let e5 = apply_motion(e4, sp);
    let e6 = apply_physical(e5, sp);
    reveal(applied);
    assert(applied(es, sp) == e6);
    lemma_apply_nozzle(e0, sp, "nozzle_temperature_initial_layer"@);
    lemma_apply_plates(e1, sp, "nozzle_temperature_initial_layer"@);
    lemma_apply_flow(e2, sp, "nozzle_temperature_initial_layer"@);
    lemma_apply_fans(e3, sp, "nozzle_temperature_initial_layer"@);
    lemma_apply_motion(e4, sp, "nozzle_temperature_initial_layer"@);
    lemma_apply_physical(e5, sp, "nozzle_temperature_initial_layer"@);
    if let Some(x) = sp.nozzle_temperature_initial_layer {
        lemma_first_of_dual(e6, "nozzle_temperature_initial_layer"@, decimal(x as nat));
        lemma_parse_u16_decimal(x as nat);
    }
}

/// Reading back `nozzle_temp_max` from a profile the specs were applied to.
proof fn lemma_read_back_nozzle_temp_max(es: Entries, sp: FilamentSpecs)
    requires
        keys_distinct(es),
        applicable(sp),
    ensures
        sp.nozzle_temp_max matches Some(x) ==> field_u16(applied(es, sp), "nozzle_temperature_range_high"@) == Some((x + 20) as u16),
{
    reveal_strlit("nozzle_temperature_range_high");
    reveal_strlit("hot_plate_temp");
    reveal_strlit("hot_plate_temp_initial_layer");
    reveal_strlit("cool_plate_temp");
    reveal_strlit("cool_plate_temp_initial_layer");
    reveal_strlit("eng_plate_temp");
    reveal_strlit("eng_plate_temp_initial_layer");
    reveal_strlit("textured_plate_temp");
    reveal_strlit("textured_plate_temp_initial_layer");
    reveal_strlit("filament_max_volumetric_speed");
    reveal_strlit("filament_flow_ratio");
    reveal_strlit("pressure_advance");
    reveal_strlit("fan_max_speed");
    reveal_strlit("fan_min_speed");
    reveal_strlit("overhang_fan_speed");
    reveal_strlit("close_fan_the_first_x_layers");
    reveal_strlit("additional_cooling_fan_speed");
    reveal_strlit("slow_down_layer_time");
    reveal_strlit("slow_down_min_speed");
    reveal_strlit("filament_retraction_length");
    reveal_strlit("filament_retraction_speed");
    reveal_strlit("filament_deretraction_speed");
    reveal_strlit("filament_bridge_speed");
    reveal_strlit("filament_density");
    reveal_strlit("temperature_vitrification");
    reveal_strlit("filament_cost");
    reveal_strlit("filament_type");
    reveal_strlit("filament_vendor");
    assert("additional_cooling_fan_speed"@.len() == 28);
    assert("close_fan_the_first_x_layers"@.len() == 28);
    assert("cool_plate_temp"@.len() == 15);
    assert("cool_plate_temp_initial_layer"@.len() == 29);
    assert("eng_plate_temp"@.len() == 14);
    assert("eng_plate_temp_initial_layer"@.len() == 28);
    assert("fan_max_speed"@.len() == 13);
    assert("fan_min_speed"@.len() == 13);
    assert("filament_bridge_speed"@.len() == 21);
    assert("filament_cost"@.len() == 13);
    assert("filament_density"@.len() == 16);
    assert("filament_deretraction_speed"@.len() == 27);
    assert("filament_flow_ratio"@.len() == 19);
    assert("filament_max_volumetric_speed"@.len() == 29);
    assert("filament_retraction_length"@.len() == 26);
    assert("filament_retraction_speed"@.len() == 25);
    assert("filament_type"@.len() == 13);
    assert("filament_vendor"@.len() == 15);
    assert("hot_plate_temp"@.len() == 14);
    assert("hot_plate_temp_initial_layer"@.len() == 28);
    assert("nozzle_temperature_range_high"@.len() == 29);
    assert("overhang_fan_speed"@.len() == 18);
    assert("pressure_advance"@.len() == 16);
    assert("slow_down_layer_time"@.len() == 20);
    assert("slow_down_min_speed"@.len() == 19);
    assert("temperature_vitrification"@.len() == 25);
    assert("textured_plate_temp"@.len() == 19);
    assert("textured_plate_temp_initial_layer"@.len() == 33);
    assert("nozzle_temperature_range_high"@[0] != "cool_plate_temp_initial_layer"@[0]);
    assert("nozzle_temperature_range_high"@[0] != "filament_max_volumetric_speed"@[0]);
    let e0 = es;
    let e1 = apply_nozzle(e0, sp);
    let e2 = apply_plates(e1, sp);
    let e3 = apply_flow(e2, sp);
    let e4 = apply_fans(e3, sp);
    let e5 = apply_motion(e4, sp);
    let e6 = apply_physical(e5, sp);
    reveal(applied);
    assert(applied(es, sp) == e6);
    lemma_apply_nozzle(e0, sp, "nozzle_temperature_range_high"@);
    lemma_apply_plates(e1, sp, "nozzle_temperature_range_high"@);
    lemma_apply_flow(e2, sp, "nozzle_temperature_range_high"@);
    lemma_apply_fans(e3, sp, "nozzle_temperature_range_high"@);
    lemma_apply_motion(e4, sp, "nozzle_temperature_range_high"@);
    lemma_apply_physical(e5, sp, "nozzle_temperature_range_high"@);
    if let Some(x) = sp.nozzle_temp_max {
        lemma_first_of_dual(e6, "nozzle_temperature_range_high"@, decimal((x + 20) as nat));
        lemma_parse_u16_decimal((x + 20) as nat);
    }
}

/// Reading back `nozzle_temp_min` from a profile the specs were applied to.
proof fn lemma_read_back_nozzle_temp_min(es: Entries, sp: FilamentSpecs)
    requires
        keys_distinct(es),
        applicable(sp),
    ensures
        sp.nozzle_temp_min matches Some(x) ==> field_u16(applied(es, sp), "nozzle_temperature_range_low"@) == Some(x),
{
    reveal_strlit("nozzle_temperature_range_low");
    reveal_strlit("hot_plate_temp");
    reveal_strlit("hot_plate_temp_initial_layer");
    reveal_strlit("cool_plate_temp");
    reveal_strlit("cool_plate_temp_initial_layer");
    reveal_strlit("eng_plate_temp");
    reveal_strlit("eng_plate_temp_initial_layer");
    reveal_strlit("textured_plate_temp");
    reveal_strlit("textured_plate_temp_initial_layer");
    reveal_strlit("filament_max_volumetric_speed");
    reveal_strlit("filament_flow_ratio");
    reveal_strlit("pressure_advance");
    reveal_strlit("fan_max_speed");
    reveal_strlit("fan_min_speed");
    reveal_strlit("overhang_fan_speed");
    reveal_strlit("close_fan_the_first_x_layers");
    reveal_strlit("additional_cooling_fan_speed");
    reveal_strlit("slow_down_layer_time");
    reveal_strlit("slow_down_min_speed");
    reveal_strlit("filament_retraction_length");
    reveal_strlit("filament_retraction_speed");
    reveal_strlit("filament_deretraction_speed");
    reveal_strlit("filament_bridge_speed");
    reveal_strlit("filament_density");
    reveal_strlit("temperature_vitrification");
    reveal_strlit("filament_cost");
    reveal_strlit("filament_type");
    reveal_strlit("filament_vendor");
    assert("additional_cooling_fan_speed"@.len() == 28);
    assert("close_fan_the_first_x_layers"@.len() == 28);
    assert("cool_plate_temp"@.len() == 15);
    assert("cool_plate_temp_initial_layer"@.len() == 29);
    assert("eng_plate_temp"@.len() == 14);
    assert("eng_plate_temp_initial_layer"@.len() == 28);
    assert("fan_max_speed"@.len() == 13);
    assert("fan_min_speed"@.len() == 13);
    assert("filament_bridge_speed"@.len() == 21);
    assert("filament_cost"@.len() == 13);
    assert("filament_density"@.len() == 16);
    assert("filament_deretraction_speed"@.len() == 27);
    assert("filament_flow_ratio"@.len() == 19);
    assert("filament_max_volumetric_speed"@.len() == 29);
    assert("filament_retraction_length"@.len() == 26);
    assert("filament_retraction_speed"@.len() == 25);
    assert("filament_type"@.len() == 13);
    assert("filament_vendor"@.len() == 15);
    assert("hot_plate_temp"@.len() == 14);
    assert("hot_plate_temp_initial_layer"@.len() == 28);
    assert("nozzle_temperature_range_low"@.len() == 28);
    assert("overhang_fan_speed"@.len() == 18);
    assert("pressure_advance"@.len() == 16);
    assert("slow_down_layer_time"@.len() == 20);
    assert("slow_down_min_speed"@.len() == 19);
    assert("temperature_vitrification"@.len() == 25);
    assert("textured_plate_temp"@.len() == 19);
    assert("textured_plate_temp_initial_layer"@.len() == 33);
    assert("nozzle_temperature_range_low"@[0] != "hot_plate_temp_initial_layer"@[0]);
    assert("nozzle_temperature_range_low"@[0] != "eng_plate_temp_initial_layer"@[0]);
    assert("nozzle_temperature_range_low"@[0] != "close_fan_the_first_x_layers"@[0]);
    assert("nozzle_temperature_range_low"@[0] != "additional_cooling_fan_speed"@[0]);
    let e0 = es;
    let e1 = apply_nozzle(e0, sp);
    let e2 = apply_plates(e1, sp);
    let e3 = apply_flow(e2, sp);
    let e4 = apply_fans(e3, sp);
    let e5 = apply_motion(e4, sp);
    let e6 = apply_physical(e5, sp);
    reveal(applied);
    assert(applied(es, sp) == e6);
    lemma_apply_nozzle(e0, sp, "nozzle_temperature_range_low"@);
    lemma_apply_plates(e1, sp, "nozzle_temperature_range_low"@);
    lemma_apply_flow(e2, sp, "nozzle_temperature_range_low"@);
    lemma_apply_fans(e3, sp, "nozzle_temperature_range_low"@);
    lemma_apply_motion(e4, sp, "nozzle_temperature_range_low"@);
    lemma_apply_physical(e5, sp, "nozzle_temperature_range_low"@);
    if let Some(x) = sp.nozzle_temp_min {
        lemma_first_of_dual(e6, "nozzle_temperature_range_low"@, decimal(x as nat));
        lemma_parse_u16_decimal(x as nat);
    }
}

/// Reading back `hot_plate_temp` from a profile the specs were applied to.
proof fn lemma_read_back_hot_plate_temp(es: Entries, sp: FilamentSpecs)
    requires
        keys_distinct(es),
        applicable(sp),
    ensures
        sp.hot_plate_temp matches Some(x) ==> field_u16(applied(es, sp), "hot_plate_temp"@) == Some(x),
        sp.hot_plate_temp is None ==> (sp.bed_temp_max matches Some(x) ==> field_u16(applied(es, sp), "hot_plate_temp"@) == Some(x)),
{
    reveal_strlit("hot_plate_temp");
    reveal_strlit("filament_max_volumetric_speed");
    reveal_strlit("filament_flow_ratio");
    reveal_strlit("pressure_advance");
    reveal_strlit("fan_max_speed");
    reveal_strlit("fan_min_speed");
    reveal_strlit("overhang_fan_speed");
    reveal_strlit("close_fan_the_first_x_layers");
    reveal_strlit("additional_cooling_fan_speed");
    reveal_strlit("slow_down_layer_time");
    reveal_strlit("slow_down_min_speed");
    reveal_strlit("filament_retraction_length");
    reveal_strlit("filament_retraction_speed");
    reveal_strlit("filament_deretraction_speed");
    reveal_strlit("filament_bridge_speed");
    reveal_strlit("filament_density");
    reveal_strlit("temperature_vitrification");
    reveal_strlit("filament_cost");
    reveal_strlit("filament_type");
    reveal_strlit("filament_vendor");
    assert("additional_cooling_fan_speed"@.len() == 28);
    assert("close_fan_the_first_x_layers"@.len() == 28);
    assert("fan_max_speed"@.len() == 13);
    assert("fan_min_speed"@.len() == 13);
    assert("filament_bridge_speed"@.len() == 21);
    assert("filament_cost"@.len() == 13);
    assert("filament_density"@.len() == 16);
    assert("filament_deretraction_speed"@.len() == 27);
    assert("filament_flow_ratio"@.len() == 19);
    assert("filament_max_volumetric_speed"@.len() == 29);
    assert("filament_retraction_length"@.len() == 26);
    assert("filament_retraction_speed"@.len() == 25);
    assert("filament_type"@.len() == 13);
    assert("filament_vendor"@.len() == 15);
    assert("hot_plate_temp"@.len() == 14);
    assert("overhang_fan_speed"@.len() == 18);
    assert("pressure_advance"@.len() == 16);
    assert("slow_down_layer_time"@.len() == 20);
    assert("slow_down_min_speed"@.len() == 19);
    assert("temperature_vitrification"@.len() == 25);
    let e0 = es;
    let e1 = apply_nozzle(e0, sp);
    let e2 = apply_plates(e1, sp);
    let e3 = apply_flow(e2, sp);
    let e4 = apply_fans(e3, sp);
    let e5 = apply_motion(e4, sp);
    let e6 = apply_physical(e5, sp);
    reveal(applied);
    assert(applied(es, sp) == e6);
    lemma_apply_nozzle(e0, sp, "hot_plate_temp"@);
    lemma_apply_plates(e1, sp, "hot_plate_temp"@);
    lemma_apply_flow(e2, sp, "hot_plate_temp"@);
    lemma_apply_fans(e3, sp, "hot_plate_temp"@);
    lemma_apply_motion(e4, sp, "hot_plate_temp"@);
    lemma_apply_physical(e5, sp, "hot_plate_temp"@);
    if let Some(x) = sp.hot_plate_temp {
        lemma_first_of_dual(e6, "hot_plate_temp"@, decimal(x as nat));
        lemma_parse_u16_decimal(x as nat);
    } else if let Some(x) = sp.bed_temp_max {
        lemma_first_of_dual(e6, "hot_plate_temp"@, decimal(x as nat));
        lemma_parse_u16_decimal(x as nat);
    }
}

/// Reading back `hot_plate_temp_initial_layer` from a profile the specs were applied to.
proof fn lemma_read_back_hot_plate_temp_initial_layer(es: Entries, sp: FilamentSpecs)
    requires
        keys_distinct(es),
        applicable(sp),
    ensures
        sp.hot_plate_temp_initial_layer matches Some(x) ==> field_u16(applied(es, sp), "hot_plate_temp_initial_layer"@) == Some(x),
{
    reveal_strlit("hot_plate_temp_initial_layer");
    reveal_strlit("filament_max_volumetric_speed");
    reveal_strlit("filament_flow_ratio");
    reveal_strlit("pressure_advance");
    reveal_strlit("fan_max_speed");
    reveal_strlit("fan_min_speed");
    reveal_strlit("overhang_fan_speed");
    reveal_strlit("close_fan_the_first_x_layers");
    reveal_strlit("additional_cooling_fan_speed");
    reveal_strlit("slow_down_layer_time");
    reveal_strlit("slow_down_min_speed");
    reveal_strlit("filament_retraction_length");
    reveal_strlit("filament_retraction_speed");
    reveal_strlit("filament_deretraction_speed");
    reveal_strlit("filament_bridge_speed");
    reveal_strlit("filament_density");
    reveal_strlit("temperature_vitrification");
    reveal_strlit("filament_cost");
    reveal_strlit("filament_type");
    reveal_strlit("filament_vendor");
    assert("additional_cooling_fan_speed"@.len() == 28);
    assert("close_fan_the_first_x_layers"@.len() == 28);
    assert("fan_max_speed"@.len() == 13);
    assert("fan_min_speed"@.len() == 13);
    assert("filament_bridge_speed"@.len() == 21);
    assert("filament_cost"@.len() == 13);
    assert("filament_density"@.len() == 16);
    assert("filament_deretraction_speed"@.len() == 27);
    assert("filament_flow_ratio"@.len() == 19);
    assert("filament_max_volumetric_speed"@.len() == 29);
    assert("filament_retraction_length"@.len() == 26);
    assert("filament_retraction_speed"@.len() == 25);
    assert("filament_type"@.len() == 13);
    assert("filament_vendor"@.len() == 15);
    assert("hot_plate_temp_initial_layer"@.len() == 28);
    assert("overhang_fan_speed"@.len() == 18);
    assert("pressure_advance"@.len() == 16);
    assert("slow_down_layer_time"@.len() == 20);
    assert("slow_down_min_speed"@.len() == 19);
    assert("temperature_vitrification"@.len() == 25);
    assert("hot_plate_temp_initial_layer"@[0] != "close_fan_the_first_x_layers"@[0]);
    assert("hot_plate_temp_initial_layer"@[0] != "additional_cooling_fan_speed"@[0]);
    let e0 = es;
    let e1 = apply_nozzle(e0, sp);
    let e2 = apply_plates(e1, sp);
    let e3 = apply_flow(e2, sp);
    let e4 = apply_fans(e3, sp);
    let e5 = apply_motion(e4, sp);
    let e6 = apply_physical(e5, sp);
    reveal(applied);
    assert(applied(es, sp) == e6);
    lemma_apply_nozzle(e0, sp, "hot_plate_temp_initial_layer"@);
    lemma_apply_plates(e1, sp, "hot_plate_temp_initial_layer"@);
    lemma_apply_flow(e2, sp, "hot_plate_temp_initial_layer"@);
    lemma_apply_fans(e3, sp, "hot_plate_temp_initial_layer"@);
    lemma_apply_motion(e4, sp, "hot_plate_temp_initial_layer"@);
    lemma_apply_physical(e5, sp, "hot_plate_temp_initial_layer"@);
    if let Some(x) = sp.hot_plate_temp_initial_layer {
        lemma_first_of_dual(e6, "hot_plate_temp_initial_layer"@, decimal(x as nat));
        lemma_parse_u16_decimal(x as nat);
    }
}

/// Reading back `cool_plate_temp` from a profile the specs were applied to.
proof fn lemma_read_back_cool_plate_temp(es: Entries, sp: FilamentSpecs)
    requires
        keys_distinct(es),
        applicable(sp),
    ensures
        sp.cool_plate_temp matches Some(x) ==> field_u16(applied(es, sp), "cool_plate_temp"@) == Some(x),
        sp.cool_plate_temp is None ==> (sp.bed_temp_min matches Some(x) ==> field_u16(applied(es, sp), "cool_plate_temp"@) == Some(x)),
{
    reveal_strlit("cool_plate_temp");
    reveal_strlit("filament_max_volumetric_speed");
    reveal_strlit("filament_flow_ratio");
    reveal_strlit("pressure_advance");
    reveal_strlit("fan_max_speed");
    reveal_strlit("fan_min_speed");
    reveal_strlit("overhang_fan_speed");
    reveal_strlit("close_fan_the_first_x_layers");
    reveal_strlit("additional_cooling_fan_speed");
    reveal_strlit("slow_down_layer_time");
    reveal_strlit("slow_down_min_speed");
    reveal_strlit("filament_retraction_length");
    reveal_strlit("filament_retraction_speed");
    reveal_strlit("filament_deretraction_speed");
    reveal_strlit("filament_bridge_speed");
    reveal_strlit("filament_density");
    reveal_strlit("temperature_vitrification");
    reveal_strlit("filament_cost");
    reveal_strlit("filament_type");
    reveal_strlit("filament_vendor");
    assert("additional_cooling_fan_speed"@.len() == 28);
    assert("close_fan_the_first_x_layers"@.len() == 28);
    assert("cool_plate_temp"@.len() == 15);
    assert("fan_max_speed"@.len() == 13);
    assert("fan_min_speed"@.len() == 13);
    assert("filament_bridge_speed"@.len() == 21);
    assert("filament_cost"@.len() == 13);
    assert("filament_density"@.len() == 16);
    assert("filament_deretraction_speed"@.len() == 27);
    assert("filament_flow_ratio"@.len() == 19);
    assert("filament_max_volumetric_speed"@.len() == 29);
    assert("filament_retraction_length"@.len() == 26);
    assert("filament_retraction_speed"@.len() == 25);
    assert("filament_type"@.len() == 13);
    assert("filament_vendor"@.len() == 15);
    assert("overhang_fan_speed"@.len() == 18);
    assert("pressure_advance"@.len() == 16);
    assert("slow_down_layer_time"@.len() == 20);
    assert("slow_down_min_speed"@.len() == 19);
    assert("temperature_vitrification"@.len() == 25);
    assert("cool_plate_temp"@[0] != "filament_vendor"@[0]);
    let e0 = es;
    let e1 = apply_nozzle(e0, sp);
    let e2 = apply_plates(e1, sp);
    let e3 = apply_flow(e2, sp);
    let e4 = apply_fans(e3, sp);
    let e5 = apply_motion(e4, sp);
    let e6 = apply_physical(e5, sp);
    reveal(applied);
    assert(applied(es, sp) == e6);
    lemma_apply_nozzle(e0, sp, "cool_plate_temp"@);
    lemma_apply_plates(e1, sp, "cool_plate_temp"@);
    lemma_apply_flow(e2, sp, "cool_plate_temp"@);
    lemma_apply_fans(e3, sp, "cool_plate_temp"@);
    lemma_apply_motion(e4, sp, "cool_plate_temp"@);
    lemma_apply_physical(e5, sp, "cool_plate_temp"@);
    if let Some(x) = sp.cool_plate_temp {
        lemma_first_of_dual(e6, "cool_plate_temp"@, decimal(x as nat));
        lemma_parse_u16_decimal(x as nat);
    } else if let Some(x) = sp.bed_temp_min {
        lemma_first_of_dual(e6, "cool_plate_temp"@, decimal(x as nat));
        lemma_parse_u16_decimal(x as nat);
    }
}

/// Reading back `cool_plate_temp_initial_layer` from a profile the specs were applied to.
proof fn lemma_read_back_cool_plate_temp_initial_layer(es: Entries, sp: FilamentSpecs)
    requires
        keys_distinct(es),
        applicable(sp),
    ensures
        sp.cool_plate_temp_initial_layer matches Some(x) ==> field_u16(applied(es, sp), "cool_plate_temp_initial_layer"@) == Some(x),
{
    reveal_strlit("cool_plate_temp_initial_layer");
    reveal_strlit("filament_max_volumetric_speed");
    reveal_strlit("filament_flow_ratio");
    reveal_strlit("pressure_advance");
    reveal_strlit("fan_max_speed");
    reveal_strlit("fan_min_speed");
    reveal_strlit("overhang_fan_speed");
    reveal_strlit("close_fan_the_first_x_layers");
    reveal_strlit("additional_cooling_fan_speed");
    reveal_strlit("slow_down_layer_time");
    reveal_strlit("slow_down_min_speed");
    reveal_strlit("filament_retraction_length");
    reveal_strlit("filament_retraction_speed");
    reveal_strlit("filament_deretraction_speed");
    reveal_strlit("filament_bridge_speed");
    reveal_strlit("filament_density");
    reveal_strlit("temperature_vitrification");
    reveal_strlit("filament_cost");
    reveal_strlit("filament_type");
    reveal_strlit("filament_vendor");
    assert("additional_cooling_fan_speed"@.len() == 28);
    assert("close_fan_the_first_x_layers"@.len() == 28);
    assert("cool_plate_temp_initial_layer"@.len() == 29);
    assert("fan_max_speed"@.len() == 13);
    assert("fan_min_speed"@.len() == 13);
    assert("filament_bridge_speed"@.len() == 21);
    assert("filament_cost"@.len() == 13);
    assert("filament_density"@.len() == 16);
    assert("filament_deretraction_speed"@.len() == 27);
    assert("filament_flow_ratio"@.len() == 19);
    assert("filament_max_volumetric_speed"@.len() == 29);
    assert("filament_retraction_length"@.len() == 26);
    assert("filament_retraction_speed"@.len() == 25);
    assert("filament_type"@.len() == 13);
    assert("filament_vendor"@.len() == 15);
    assert("overhang_fan_speed"@.len() == 18);
    assert("pressure_advance"@.len() == 16);
    assert("slow_down_layer_time"@.len() == 20);
    assert("slow_down_min_speed"@.len() == 19);
    assert("temperature_vitrification"@.len() == 25);
    assert("cool_plate_temp_initial_layer"@[0] != "filament_max_volumetric_speed"@[0]);
    let e0 = es;
    let e1 = apply_nozzle(e0, sp);
    let e2 = apply_plates(e1, sp);
    let e3 = apply_flow(e2, sp);
    let e4 = apply_fans(e3, sp);
    let e5 = apply_motion(e4, sp);
    let e6 = apply_physical(e5, sp);
    reveal(applied);
    assert(applied(es, sp) == e6);
    lemma_apply_nozzle(e0, sp, "cool_plate_temp_initial_layer"@);
    lemma_apply_plates(e1, sp, "cool_plate_temp_initial_layer"@);
    lemma_apply_flow(e2, sp, "cool_plate_temp_initial_layer"@);
    lemma_apply_fans(e3, sp, "cool_plate_temp_initial_layer"@);
    lemma_apply_motion(e4, sp, "cool_plate_temp_initial_layer"@);
    lemma_apply_physical(e5, sp, "cool_plate_temp_initial_layer"@);
    if let Some(x) = sp.cool_plate_temp_initial_layer {
        lemma_first_of_dual(e6, "cool_plate_temp_initial_layer"@, decimal(x as nat));
        lemma_parse_u16_decimal(x as nat);
    }
}

/// Reading back `eng_plate_temp` from a profile the specs were applied to.
proof fn lemma_read_back_eng_plate_temp(es: Entries, sp: FilamentSpecs)
    requires
        keys_distinct(es),
        applicable(sp),
    ensures
        sp.eng_plate_temp matches Some(x) ==> field_u16(applied(es, sp), "eng_plate_temp"@) == Some(x),
{
    reveal_strlit("eng_plate_temp");
    reveal_strlit("filament_max_volumetric_speed");
    reveal_strlit("filament_flow_ratio");
    reveal_strlit("pressure_advance");
    reveal_strlit("fan_max_speed");
    reveal_strlit("fan_min_speed");
    reveal_strlit("overhang_fan_speed");
    reveal_strlit("close_fan_the_first_x_layers");
    reveal_strlit("additional_cooling_fan_speed");
    reveal_strlit("slow_down_layer_time");
    reveal_strlit("slow_down_min_speed");
    reveal_strlit("filament_retraction_length");
    reveal_strlit("filament_retraction_speed");
    reveal_strlit("filament_deretraction_speed");
    reveal_strlit("filament_bridge_speed");
    reveal_strlit("filament_density");
    reveal_strlit("temperature_vitrification");
    reveal_strlit("filament_cost");
    reveal_strlit("filament_type");
    reveal_strlit("filament_vendor");
    assert("additional_cooling_fan_speed"@.len() == 28);
    assert("close_fan_the_first_x_layers"@.len() == 28);
    assert("eng_plate_temp"@.len() == 14);
    assert("fan_max_speed"@.len() == 13);
    assert("fan_min_speed"@.len() == 13);
    assert("filament_bridge_speed"@.len() == 21);
    assert("filament_cost"@.len() == 13);
    assert("filament_density"@.len() == 16);
    assert("filament_deretraction_speed"@.len() == 27);
    assert("filament_flow_ratio"@.len() == 19);
    assert("filament_max_volumetric_speed"@.len() == 29);
    assert("filament_retraction_length"@.len() == 26);
    assert("filament_retraction_speed"@.len() == 25);
    assert("filament_type"@.len() == 13);
    assert("filament_vendor"@.len() == 15);
    assert("overhang_fan_speed"@.len() == 18);
    assert("pressure_advance"@.len() == 16);
    assert("slow_down_layer_time"@.len() == 20);
    assert("slow_down_min_speed"@.len() == 19);
    assert("temperature_vitrification"@.len() == 25);
    let e0 = es;
    let e1 = apply_nozzle(e0, sp);
    let e2 = apply_plates(e1, sp);
    let e3 = apply_flow(e2, sp);
    let e4 = apply_fans(e3, sp);
    let e5 = apply_motion(e4, sp);
    let e6 = apply_physical(e5, sp);
    reveal(applied);
    assert(applied(es, sp) == e6);
    lemma_apply_nozzle(e0, sp, "eng_plate_temp"@);
    lemma_apply_plates(e1, sp, "eng_plate_temp"@);
    lemma_apply_flow(e2, sp, "eng_plate_temp"@);
    lemma_apply_fans(e3, sp, "eng_plate_temp"@);
    lemma_apply_motion(e4, sp, "eng_plate_temp"@);
    lemma_apply_physical(e5, sp, "eng_plate_temp"@);
    if let Some(x) = sp.eng_plate_temp {
        lemma_first_of_dual(e6, "eng_plate_temp"@, decimal(x as nat));
        lemma_parse_u16_decimal(x as nat);
    }
}

/// Reading back `eng_plate_temp_initial_layer` from a profile the specs were applied to.
proof fn lemma_read_back_eng_plate_temp_initial_layer(es: Entries, sp: FilamentSpecs)
    requires
        keys_distinct(es),
        applicable(sp),
    ensures
        sp.eng_plate_temp_initial_layer matches Some(x) ==> field_u16(applied(es, sp), "eng_plate_temp_initial_layer"@) == Some(x),
{
    reveal_strlit("eng_plate_temp_initial_layer");
    reveal_strlit("filament_max_volumetric_speed");
    reveal_strlit("filament_flow_ratio");
    reveal_strlit("pressure_advance");
    reveal_strlit("fan_max_speed");
    reveal_strlit("fan_min_speed");
    reveal_strlit("overhang_fan_speed");
    reveal_strlit("close_fan_the_first_x_layers");
    reveal_strlit("additional_cooling_fan_speed");
    reveal_strlit("slow_down_layer_time");
    reveal_strlit("slow_down_min_speed");
    reveal_strlit("filament_retraction_length");
    reveal_strlit("filament_retraction_speed");
    reveal_strlit("filament_deretraction_speed");
    reveal_strlit("filament_bridge_speed");
    reveal_strlit("filament_density");
    reveal_strlit("temperature_vitrification");
    reveal_strlit("filament_cost");
    reveal_strlit("filament_type");
    reveal_strlit("filament_vendor");
    assert("additional_cooling_fan_speed"@.len() == 28);
    assert("close_fan_the_first_x_layers"@.len() == 28);
    assert("eng_plate_temp_initial_layer"@.len() == 28);
    assert("fan_max_speed"@.len() == 13);
    assert("fan_min_speed"@.len() == 13);
    assert("filament_bridge_speed"@.len() == 21);
    assert("filament_cost"@.len() == 13);
    assert("filament_density"@.len() == 16);
    assert("filament_deretraction_speed"@.len() == 27);
    assert("filament_flow_ratio"@.len() == 19);
    assert("filament_max_volumetric_speed"@.len() == 29);
    assert("filament_retraction_length"@.len() == 26);
    assert("filament_retraction_speed"@.len() == 25);
    assert("filament_type"@.len() == 13);
    assert("filament_vendor"@.len() == 15);
    assert("overhang_fan_speed"@.len() == 18);
    assert("pressure_advance"@.len() == 16);
    assert("slow_down_layer_time"@.len() == 20);
    assert("slow_down_min_speed"@.len() == 19);
    assert("temperature_vitrification"@.len() == 25);
    assert("eng_plate_temp_initial_layer"@[0] != "close_fan_the_first_x_layers"@[0]);
    assert("eng_plate_temp_initial_layer"@[0] != "additional_cooling_fan_speed"@[0]);
    let e0 = es;
    let e1 = apply_nozzle(e0, sp);
    let e2 = apply_plates(e1, sp);
    let e3 = apply_flow(e2, sp);
    let e4 = apply_fans(e3, sp);
    let e5 = apply_motion(e4, sp);
    let e6 = apply_physical(e5, sp);
    reveal(applied);
    assert(applied(es, sp) == e6);
    lemma_apply_nozzle(e0, sp, "eng_plate_temp_initial_layer"@);
    lemma_apply_plates(e1, sp, "eng_plate_temp_initial_layer"@);
    lemma_apply_flow(e2, sp, "eng_plate_temp_initial_layer"@);
    lemma_apply_fans(e3, sp, "eng_plate_temp_initial_layer"@);
    lemma_apply_motion(e4, sp, "eng_plate_temp_initial_layer"@);
    lemma_apply_physical(e5, sp, "eng_plate_temp_initial_layer"@);
    if let Some(x) = sp.eng_plate_temp_initial_layer {
        lemma_first_of_dual(e6, "eng_plate_temp_initial_layer"@, decimal(x as nat));
        lemma_parse_u16_decimal(x as nat);
    }
}

/// Reading back `textured_plate_temp` from a profile the specs were applied to.
proof fn lemma_read_back_textured_plate_temp(es: Entries, sp: FilamentSpecs)
    requires
        keys_distinct(es),
        applicable(sp),
    ensures
        sp.textured_plate_temp matches Some(x) ==> field_u16(applied(es, sp), "textured_plate_temp"@) == Some(x),
{
    reveal_strlit("textured_plate_temp");
    reveal_strlit("filament_max_volumetric_speed");
    reveal_strlit("filament_flow_ratio");
    reveal_strlit("pressure_advance");
    reveal_strlit("fan_max_speed");
    reveal_strlit("fan_min_speed");
    reveal_strlit("overhang_fan_speed");
    reveal_strlit("close_fan_the_first_x_layers");
    reveal_strlit("additional_cooling_fan_speed");
    reveal_strlit("slow_down_layer_time");
    reveal_strlit("slow_down_min_speed");
    reveal_strlit("filament_retraction_length");
    reveal_strlit("filament_retraction_speed");
    reveal_strlit("filament_deretraction_speed");
    reveal_strlit("filament_bridge_speed");
    reveal_strlit("filament_density");
    reveal_strlit("temperature_vitrification");
    reveal_strlit("filament_cost");
    reveal_strlit("filament_type");
    reveal_strlit("filament_vendor");
    assert("additional_cooling_fan_speed"@.len() == 28);
    assert("close_fan_the_first_x_layers"@.len() == 28);
    assert("fan_max_speed"@.len() == 13);
    assert("fan_min_speed"@.len() == 13);
    assert("filament_bridge_speed"@.len() == 21);
    assert("filament_cost"@.len() == 13);
    assert("filament_density"@.len() == 16);
    assert("filament_deretraction_speed"@.len() == 27);
    assert("filament_flow_ratio"@.len() == 19);
    assert("filament_max_volumetric_speed"@.len() == 29);
    assert("filament_retraction_length"@.len() == 26);
    assert("filament_retraction_speed"@.len() == 25);
    assert("filament_type"@.len() == 13);
    assert("filament_vendor"@.len() == 15);
    assert("overhang_fan_speed"@.len() == 18);
    assert("pressure_advance"@.len() == 16);
    assert("slow_down_layer_time"@.len() == 20);
    assert("slow_down_min_speed"@.len() == 19);
    assert("temperature_vitrification"@.len() == 25);
    assert("textured_plate_temp"@.len() == 19);
    assert("textured_plate_temp"@[0] != "filament_flow_ratio"@[0]);
    assert("textured_plate_temp"@[0] != "slow_down_min_speed"@[0]);
    let e0 = es;
    let e1 = apply_nozzle(e0, sp);
    let e2 = apply_plates(e1, sp);
    let e3 = apply_flow(e2, sp);
    let e4 = apply_fans(e3, sp);
    let e5 = apply_motion(e4, sp);
    let e6 = apply_physical(e5, sp);
    reveal(applied);
    assert(applied(es, sp) == e6);
    lemma_apply_nozzle(e0, sp, "textured_plate_temp"@);
    lemma_apply_plates(e1, sp, "textured_plate_temp"@);
    lemma_apply_flow(e2, sp, "textured_plate_temp"@);
    lemma_apply_fans(e3, sp, "textured_plate_temp"@);
    lemma_apply_motion(e4, sp, "textured_plate_temp"@);
    lemma_apply_physical(e5, sp, "textured_plate_temp"@);
    if let Some(x) = sp.textured_plate_temp {
        lemma_first_of_dual(e6, "textured_plate_temp"@, decimal(x as nat));
        lemma_parse_u16_decimal(x as nat);
    }
}

/// Reading back `textured_plate_temp_initial_layer` from a profile the specs were applied to.
proof fn lemma_read_back_textured_plate_temp_initial_layer(es: Entries, sp: FilamentSpecs)
    requires
        keys_distinct(es),
        applicable(sp),
    ensures
        sp.textured_plate_temp_initial_layer matches Some(x) ==> field_u16(applied(es, sp), "textured_plate_temp_initial_layer"@) == Some(x),
{
    reveal_strlit("textured_plate_temp_initial_layer");
    reveal_strlit("filament_max_volumetric_speed");
    reveal_strlit("filament_flow_ratio");
    reveal_strlit("pressure_advance");
    reveal_strlit("fan_max_speed");
    reveal_strlit("fan_min_speed");
    reveal_strlit("overhang_fan_speed");
    reveal_strlit("close_fan_the_first_x_layers");
    reveal_strlit("additional_cooling_fan_speed");
    reveal_strlit("slow_down_layer_time");
    reveal_strlit("slow_down_min_speed");
    reveal_strlit("filament_retraction_length");
    reveal_strlit("filament_retraction_speed");
    reveal_strlit("filament_deretraction_speed");
    reveal_strlit("filament_bridge_speed");
    reveal_strlit("filament_density");
    reveal_strlit("temperature_vitrification");
    reveal_strlit("filament_cost");
    reveal_strlit("filament_type");
    reveal_strlit("filament_vendor");
    assert("additional_cooling_fan_speed"@.len() == 28);
    assert("close_fan_the_first_x_layers"@.len() == 28);
    assert("fan_max_speed"@.len() == 13);
    assert("fan_min_speed"@.len() == 13);
    assert("filament_bridge_speed"@.len() == 21);
    assert("filament_cost"@.len() == 13);
    assert("filament_density"@.len() == 16);
    assert("filament_deretraction_speed"@.len() == 27);
    assert("filament_flow_ratio"@.len() == 19);
    assert("filament_max_volumetric_speed"@.len() == 29);
    assert("filament_retraction_length"@.len() == 26);
    assert("filament_retraction_speed"@.len() == 25);
    assert("filament_type"@.len() == 13);
    assert("filament_vendor"@.len() == 15);
    assert("overhang_fan_speed"@.len() == 18);
    assert("pressure_advance"@.len() == 16);
    assert("slow_down_layer_time"@.len() == 20);
    assert("slow_down_min_speed"@.len() == 19);
    assert("temperature_vitrification"@.len() == 25);
    assert("textured_plate_temp_initial_layer"@.len() == 33);
    let e0 = es;
    let e1 = apply_nozzle(e0, sp);
    let e2 = apply_plates(e1, sp);
    let e3 = apply_flow(e2, sp);
    let e4 = apply_fans(e3, sp);
    let e5 = apply_motion(e4, sp);
    let e6 = apply_physical(e5, sp);
    reveal(applied);
    assert(applied(es, sp) == e6);
    lemma_apply_nozzle(e0, sp, "textured_plate_temp_initial_layer"@);
    lemma_apply_plates(e1, sp, "textured_plate_temp_initial_layer"@);
    lemma_apply_flow(e2, sp, "textured_plate_temp_initial_layer"@);
    lemma_apply_fans(e3, sp, "textured_plate_temp_initial_layer"@);
    lemma_apply_motion(e4, sp, "textured_plate_temp_initial_layer"@);
    lemma_apply_physical(e5, sp, "textured_plate_temp_initial_layer"@);
    if let Some(x) = sp.textured_plate_temp_initial_layer {
        lemma_first_of_dual(e6, "textured_plate_temp_initial_layer"@, decimal(x as nat));
        lemma_parse_u16_decimal(x as nat);
    }
}

/// Reading back `fan_max_speed` from a profile the specs were applied to.
proof fn lemma_read_back_fan_max_speed(es: Entries, sp: FilamentSpecs)
    requires
        keys_distinct(es),
        applicable(sp),
    ensures
        sp.fan_max_speed matches Some(x) ==> field_u8(applied(es, sp), "fan_max_speed"@) == Some(x),
{
    reveal_strlit("fan_max_speed");
    reveal_strlit("slow_down_layer_time");
    reveal_strlit("slow_down_min_speed");
    reveal_strlit("filament_retraction_length");
    reveal_strlit("filament_retraction_speed");
    reveal_strlit("filament_deretraction_speed");
    reveal_strlit("filament_bridge_speed");
    reveal_strlit("filament_density");
    reveal_strlit("temperature_vitrification");
    reveal_strlit("filament_cost");
    reveal_strlit("filament_type");
    reveal_strlit("filament_vendor");
    assert("fan_max_speed"@.len() == 13);
    assert("filament_bridge_speed"@.len() == 21);
    assert("filament_cost"@.len() == 13);
    assert("filament_density"@.len() == 16);
    assert("filament_deretraction_speed"@.len() == 27);
    assert("filament_retraction_length"@.len() == 26);
    assert("filament_retraction_speed"@.len() == 25);
    assert("filament_type"@.len() == 13);
    assert("filament_vendor"@.len() == 15);
    assert("slow_down_layer_time"@.len() == 20);
    assert("slow_down_min_speed"@.len() == 19);
    assert("temperature_vitrification"@.len() == 25);
    assert("fan_max_speed"@[1] != "filament_cost"@[1]);
    assert("fan_max_speed"@[1] != "filament_type"@[1]);
    let e0 = es;
    let e1 = apply_nozzle(e0, sp);
    let e2 = apply_plates(e1, sp);
    let e3 = apply_flow(e2, sp);
    let e4 = apply_fans(e3, sp);
    let e5 = apply_motion(e4, sp);
    let e6 = apply_physical(e5, sp);
    reveal(applied);
    assert(applied(es, sp) == e6);
    lemma_apply_nozzle(e0, sp, "fan_max_speed"@);
    lemma_apply_plates(e1, sp, "fan_max_speed"@);
    lemma_apply_flow(e2, sp, "fan_max_speed"@);
    lemma_apply_fans(e3, sp, "fan_max_speed"@);
    lemma_apply_motion(e4, sp, "fan_max_speed"@);
    lemma_apply_physical(e5, sp, "fan_max_speed"@);
    if let Some(x) = sp.fan_max_speed {
        lemma_first_of_dual(e6, "fan_max_speed"@, decimal(x as nat));
        lemma_parse_u8_decimal(x as nat);
    }
}

/// Reading back `fan_min_speed` from a profile the specs were applied to.
proof fn lemma_read_back_fan_min_speed(es: Entries, sp: FilamentSpecs)
    requires
        keys_distinct(es),
        applicable(sp),
    ensures
        sp.fan_min_speed matches Some(x) ==> field_u8(applied(es, sp), "fan_min_speed"@) == Some(x),
{
    reveal_strlit("fan_min_speed");
    reveal_strlit("slow_down_layer_time");
    reveal_strlit("slow_down_min_speed");
    reveal_strlit("filament_retraction_length");
    reveal_strlit("filament_retraction_speed");
    reveal_strlit("filament_deretraction_speed");
    reveal_strlit("filament_bridge_speed");
    reveal_strlit("filament_density");
    reveal_strlit("temperature_vitrification");
    reveal_strlit("filament_cost");
    reveal_strlit("filament_type");
    reveal_strlit("filament_vendor");
    assert("fan_min_speed"@.len() == 13);
    assert("filament_bridge_speed"@.len() == 21);
    assert("filament_cost"@.len() == 13);
    assert("filament_density"@.len() == 16);
    assert("filament_deretraction_speed"@.len() == 27);
    assert("filament_retraction_length"@.len() == 26);
    assert("filament_retraction_speed"@.len() == 25);
    assert("filament_type"@.len() == 13);
    assert("filament_vendor"@.len() == 15);
    assert("slow_down_layer_time"@.len() == 20);
    assert("slow_down_min_speed"@.len() == 19);
    assert("temperature_vitrification"@.len() == 25);
    assert("fan_min_speed"@[1] != "filament_cost"@[1]);
    assert("fan_min_speed"@[1] != "filament_type"@[1]);
    let e0 = es;
    let e1 = apply_nozzle(e0, sp);
    let e2 = apply_plates(e1, sp);
    let e3 = apply_flow(e2, sp);
    let e4 = apply_fans(e3, sp);
    let e5 = apply_motion(e4, sp);
    let e6 = apply_physical(e5, sp);
    reveal(applied);
    assert(applied(es, sp) == e6);
    lemma_apply_nozzle(e0, sp, "fan_min_speed"@);
    lemma_apply_plates(e1, sp, "fan_min_speed"@);
    lemma_apply_flow(e2, sp, "fan_min_speed"@);
    lemma_apply_fans(e3, sp, "fan_min_speed"@);
    lemma_apply_motion(e4, sp, "fan_min_speed"@);
    lemma_apply_physical(e5, sp, "fan_min_speed"@);
    if let Some(x) = sp.fan_min_speed {
        lemma_first_of_dual(e6, "fan_min_speed"@, decimal(x as nat));
        lemma_parse_u8_decimal(x as nat);
    }
}

/// Reading back `overhang_fan_speed` from a profile the specs were applied to.
proof fn lemma_read_back_overhang_fan_speed(es: Entries, sp: FilamentSpecs)
    requires
        keys_distinct(es),
        applicable(sp),
    ensures
        sp.overhang_fan_speed matches Some(x) ==> field_u8(applied(es, sp), "overhang_fan_speed"@) == Some(x),
{
    reveal_strlit("overhang_fan_speed");
    reveal_strlit("slow_down_layer_time");
    reveal_strlit("slow_down_min_speed");
    reveal_strlit("filament_retraction_length");
    reveal_strlit("filament_retraction_speed");
    reveal_strlit("filament_deretraction_speed");
    reveal_strlit("filament_bridge_speed");
    reveal_strlit("filament_density");
    reveal_strlit("temperature_vitrification");
    reveal_strlit("filament_cost");
    reveal_strlit("filament_type");
    reveal_strlit("filament_vendor");
    assert("filament_bridge_speed"@.len() == 21);
    assert("filament_cost"@.len() == 13);
    assert("filament_density"@.len() == 16);
    assert("filament_deretraction_speed"@.len() == 27);
    assert("filament_retraction_length"@.len() == 26);
    assert("filament_retraction_speed"@.len() == 25);
    assert("filament_type"@.len() == 13);
    assert("filament_vendor"@.len() == 15);
    assert("overhang_fan_speed"@.len() == 18);
    assert("slow_down_layer_time"@.len() == 20);
    assert("slow_down_min_speed"@.len() == 19);
    assert("temperature_vitrification"@.len() == 25);
    let e0 = es;
    let e1 = apply_nozzle(e0, sp);
    let e2 = apply_plates(e1, sp);
    let e3 = apply_flow(e2, sp);
    let e4 = apply_fans(e3, sp);
    let e5 = apply_motion(e4, sp);
    let e6 = apply_physical(e5, sp);
    reveal(applied);
    assert(applied(es, sp) == e6);
    lemma_apply_nozzle(e0, sp, "overhang_fan_speed"@);
    lemma_apply_plates(e1, sp, "overhang_fan_speed"@);
    lemma_apply_flow(e2, sp, "overhang_fan_speed"@);
    lemma_apply_fans(e3, sp, "overhang_fan_speed"@);
    lemma_apply_motion(e4, sp, "overhang_fan_speed"@);
    lemma_apply_physical(e5, sp, "overhang_fan_speed"@);
    if let Some(x) = sp.overhang_fan_speed {
        lemma_first_of_dual(e6, "overhang_fan_speed"@, decimal(x as nat));
        lemma_parse_u8_decimal(x as nat);
    }
}

/// Reading back `close_fan_the_first_x_layers` from a profile the specs were applied to.
proof fn lemma_read_back_close_fan_the_first_x_layers(es: Entries, sp: FilamentSpecs)
    requires
        keys_distinct(es),
        applicable(sp),
    ensures
        sp.close_fan_the_first_x_layers matches Some(x) ==> field_u8(applied(es, sp), "close_fan_the_first_x_layers"@) == Some(x),
{
    reveal_strlit("close_fan_the_first_x_layers");
    reveal_strlit("slow_down_layer_time");
    reveal_strlit("slow_down_min_speed");
    reveal_strlit("filament_retraction_length");
    reveal_strlit("filament_retraction_speed");
    reveal_strlit("filament_deretraction_speed");
    reveal_strlit("filament_bridge_speed");
    reveal_strlit("filament_density");
    reveal_strlit("temperature_vitrification");
    reveal_strlit("filament_cost");
    reveal_strlit("filament_type");
    reveal_strlit("filament_vendor");
    assert("close_fan_the_first_x_layers"@.len() == 28);
    assert("filament_bridge_speed"@.len() == 21);
    assert("filament_cost"@.len() == 13);
    assert("filament_density"@.len() == 16);
    assert("filament_deretraction_speed"@.len() == 27);
    assert("filament_retraction_length"@.len() == 26);
    assert("filament_retraction_speed"@.len() == 25);
    assert("filament_type"@.len() == 13);
    assert("filament_vendor"@.len() == 15);
    assert("slow_down_layer_time"@.len() == 20);
    assert("slow_down_min_speed"@.len() == 19);
    assert("temperature_vitrification"@.len() == 25);
    let e0 = es;
    let e1 = apply_nozzle(e0, sp);
    let e2 = apply_plates(e1, sp);
    let e3 = apply_flow(e2, sp);
    let e4 = apply_fans(e3, sp);
    let e5 = apply_motion(e4, sp);
    let e6 = apply_physical(e5, sp);
    reveal(applied);
    assert(applied(es, sp) == e6);
    lemma_apply_nozzle(e0, sp, "close_fan_the_first_x_layers"@);
    lemma_apply_plates(e1, sp, "close_fan_the_first_x_layers"@);
    lemma_apply_flow(e2, sp, "close_fan_the_first_x_layers"@);
    lemma_apply_fans(e3, sp, "close_fan_the_first_x_layers"@);
    lemma_apply_motion(e4, sp, "close_fan_the_first_x_layers"@);
    lemma_apply_physical(e5, sp, "close_fan_the_first_x_layers"@);
    if let Some(x) = sp.close_fan_the_first_x_layers {
        lemma_first_of_dual(e6, "close_fan_the_first_x_layers"@, decimal(x as nat));
        lemma_parse_u8_decimal(x as nat);
    }
}

/// Reading back `additional_cooling_fan_speed` from a profile the specs were applied to.
proof fn lemma_read_back_additional_cooling_fan_speed(es: Entries, sp: FilamentSpecs)
    requires
        keys_distinct(es),
        applicable(sp),
    ensures
        sp.additional_cooling_fan_speed matches Some(x) ==> field_u8(applied(es, sp), "additional_cooling_fan_speed"@) == Some(x),
{
    reveal_strlit("additional_cooling_fan_speed");
    reveal_strlit("slow_down_layer_time");
    reveal_strlit("slow_down_min_speed");
    reveal_strlit("filament_retraction_length");
    reveal_strlit("filament_retraction_speed");
    reveal_strlit("filament_deretraction_speed");
    reveal_strlit("filament_bridge_speed");
    reveal_strlit("filament_density");
    reveal_strlit("temperature_vitrification");
    reveal_strlit("filament_cost");
    reveal_strlit("filament_type");
    reveal_strlit("filament_vendor");
    assert("additional_cooling_fan_speed"@.len() == 28);
    assert("filament_bridge_speed"@.len() == 21);
    assert("filament_cost"@.len() == 13);
    assert("filament_density"@.len() == 16);
    assert("filament_deretraction_speed"@.len() == 27);
    assert("filament_retraction_length"@.len() == 26);
    assert("filament_retraction_speed"@.len() == 25);
    assert("filament_type"@.len() == 13);
    assert("filament_vendor"@.len() == 15);
    assert("slow_down_layer_time"@.len() == 20);
    assert("slow_down_min_speed"@.len() == 19);
    assert("temperature_vitrification"@.len() == 25);
    let e0 = es;
    let e1 = apply_nozzle(e0, sp);
    let e2 = apply_plates(e1, sp);
    let e3 = apply_flow(e2, sp);
    let e4 = apply_fans(e3, sp);
    let e5 = apply_motion(e4, sp);
    let e6 = apply_physical(e5, sp);
    reveal(applied);
    assert(applied(es, sp) == e6);
    lemma_apply_nozzle(e0, sp, "additional_cooling_fan_speed"@);
    lemma_apply_plates(e1, sp, "additional_cooling_fan_speed"@);
    lemma_apply_flow(e2, sp, "additional_cooling_fan_speed"@);
    lemma_apply_fans(e3, sp, "additional_cooling_fan_speed"@);
    lemma_apply_motion(e4, sp, "additional_cooling_fan_speed"@);
    lemma_apply_physical(e5, sp, "additional_cooling_fan_speed"@);
    if let Some(x) = sp.additional_cooling_fan_speed {
        lemma_first_of_dual(e6, "additional_cooling_fan_speed"@, decimal(x as nat));
        lemma_parse_u8_decimal(x as nat);
    }
}

/// Reading back `slow_down_layer_time` from a profile the specs were applied to.
proof fn lemma_read_back_slow_down_layer_time(es: Entries, sp: FilamentSpecs)
    requires
        keys_distinct(es),
        applicable(sp),
    ensures
        sp.slow_down_layer_time matches Some(x) ==> field_u8(applied(es, sp), "slow_down_layer_time"@) == Some(x),
{
    reveal_strlit("slow_down_layer_time");
    reveal_strlit("filament_density");
    reveal_strlit("temperature_vitrification");
    reveal_strlit("filament_cost");
    reveal_strlit("filament_type");
    reveal_strlit("filament_vendor");
    assert("filament_cost"@.len() == 13);
    assert("filament_density"@.len() == 16);
    assert("filament_type"@.len() == 13);
    assert("filament_vendor"@.len() == 15);
    assert("slow_down_layer_time"@.len() == 20);
    assert("temperature_vitrification"@.len() == 25);
    let e0 = es;
    let e1 = apply_nozzle(e0, sp);
    let e2 = apply_plates(e1, sp);
    let e3 = apply_flow(e2, sp);
    let e4 = apply_fans(e3, sp);
    let e5 = apply_motion(e4, sp);
    let e6 = apply_physical(e5, sp);
    reveal(applied);
    assert(applied(es, sp) == e6);
    lemma_apply_nozzle(e0, sp, "slow_down_layer_time"@);
    lemma_apply_plates(e1, sp, "slow_down_layer_time"@);
    lemma_apply_flow(e2, sp, "slow_down_layer_time"@);
    lemma_apply_fans(e3, sp, "slow_down_layer_time"@);
    lemma_apply_motion(e4, sp, "slow_down_layer_time"@);
    lemma_apply_physical(e5, sp, "slow_down_layer_time"@);
    if let Some(x) = sp.slow_down_layer_time {
        lemma_first_of_dual(e6, "slow_down_layer_time"@, decimal(x as nat));
        lemma_parse_u8_decimal(x as nat);
    }
}

/// Reading back `slow_down_min_speed` from a profile the specs were applied to.
proof fn lemma_read_back_slow_down_min_speed(es: Entries, sp: FilamentSpecs)
    requires
        keys_distinct(es),
        applicable(sp),
    ensures
        sp.slow_down_min_speed matches Some(x) ==> field_u16(applied(es, sp), "slow_down_min_speed"@) == Some(x),
{
    reveal_strlit("slow_down_min_speed");
    reveal_strlit("filament_density");
    reveal_strlit("temperature_vitrification");
    reveal_strlit("filament_cost");
    reveal_strlit("filament_type");
    reveal_strlit("filament_vendor");
    assert("filament_cost"@.len() == 13);
    assert("filament_density"@.len() == 16);
    assert("filament_type"@.len() == 13);
    assert("filament_vendor"@.len() == 15);
    assert("slow_down_min_speed"@.len() == 19);
    assert("temperature_vitrification"@.len() == 25);
    let e0 = es;
    let e1 = apply_nozzle(e0, sp);
    let e2 = apply_plates(e1, sp);
    let e3 = apply_flow(e2, sp);
    let e4 = apply_fans(e3, sp);
    let e5 = apply_motion(e4, sp);
    let e6 = apply_physical(e5, sp);
    reveal(applied);
    assert(applied(es, sp) == e6);
    lemma_apply_nozzle(e0, sp, "slow_down_min_speed"@);
    lemma_apply_plates(e1, sp, "slow_down_min_speed"@);
    lemma_apply_flow(e2, sp, "slow_down_min_speed"@);
    lemma_apply_fans(e3, sp, "slow_down_min_speed"@);
    lemma_apply_motion(e4, sp, "slow_down_min_speed"@);
    lemma_apply_physical(e5, sp, "slow_down_min_speed"@);
    if let Some(x) = sp.slow_down_min_speed {
        lemma_first_of_dual(e6, "slow_down_min_speed"@, decimal(x as nat));
        lemma_parse_u16_decimal(x as nat);
    }
}

/// Reading back `retraction_speed_mm_s` from a profile the specs were applied to.
proof fn lemma_read_back_retraction_speed_mm_s(es: Entries, sp: FilamentSpecs)
    requires
        keys_distinct(es),
        applicable(sp),
    ensures
        sp.retraction_speed_mm_s matches Some(x) ==> field_u16(applied(es, sp), "filament_retraction_speed"@) == Some(x),
{
    reveal_strlit("filament_retraction_speed");
    reveal_strlit("filament_density");
    reveal_strlit("temperature_vitrification");
    reveal_strlit("filament_cost");
    reveal_strlit("filament_type");
    reveal_strlit("filament_vendor");
    assert("filament_cost"@.len() == 13);
    assert("filament_density"@.len() == 16);
    assert("filament_retraction_speed"@.len() == 25);
    assert("filament_type"@.len() == 13);
    assert("filament_vendor"@.len() == 15);
    assert("temperature_vitrification"@.len() == 25);
    assert("filament_retraction_speed"@[0] != "temperature_vitrification"@[0]);
    let e0 = es;
    let e1 = apply_nozzle(e0, sp);
    let e2 = apply_plates(e1, sp);
    let e3 = apply_flow(e2, sp);
    let e4 = apply_fans(e3, sp);
    let e5 = apply_motion(e4, sp);
    let e6 = apply_physical(e5, sp);
    reveal(applied);
    assert(applied(es, sp) == e6);
    lemma_apply_nozzle(e0, sp, "filament_retraction_speed"@);
    lemma_apply_plates(e1, sp, "filament_retraction_speed"@);
    lemma_apply_flow(e2, sp, "filament_retraction_speed"@);
    lemma_apply_fans(e3, sp, "filament_retraction_speed"@);
    lemma_apply_motion(e4, sp, "filament_retraction_speed"@);
    lemma_apply_physical(e5, sp, "filament_retraction_speed"@);
    if let Some(x) = sp.retraction_speed_mm_s {
        lemma_first_of_dual(e6, "filament_retraction_speed"@, decimal(x as nat));
        lemma_parse_u16_decimal(x as nat);
    }
}

/// Reading back `deretraction_speed_mm_s` from a profile the specs were applied to.
proof fn lemma_read_back_deretraction_speed_mm_s(es: Entries, sp: FilamentSpecs)
    requires
        keys_distinct(es),
        applicable(sp),
    ensures
        sp.deretraction_speed_mm_s matches Some(x) ==> field_u16(applied(es, sp), "filament_deretraction_speed"@) == Some(x),
{
    reveal_strlit("filament_deretraction_speed");
    reveal_strlit("filament_density");
    reveal_strlit("temperature_vitrification");
    reveal_strlit("filament_cost");
    reveal_strlit("filament_type");
    reveal_strlit("filament_vendor");
    assert("filament_cost"@.len() == 13);
    assert("filament_density"@.len() == 16);
    assert("filament_deretraction_speed"@.len() == 27);
    assert("filament_type"@.len() == 13);
    assert("filament_vendor"@.len() == 15);
    assert("temperature_vitrification"@.len() == 25);
    let e0 = es;
    let e1 = apply_nozzle(e0, sp);
    let e2 = apply_plates(e1, sp);
    let e3 = apply_flow(e2, sp);
    let e4 = apply_fans(e3, sp);
    let e5 = apply_motion(e4, sp);
    let e6 = apply_physical(e5, sp);
    reveal(applied);
    assert(applied(es, sp) == e6);
    lemma_apply_nozzle(e0, sp, "filament_deretraction_speed"@);
    lemma_apply_plates(e1, sp, "filament_deretraction_speed"@);
    lemma_apply_flow(e2, sp, "filament_deretraction_speed"@);
    lemma_apply_fans(e3, sp, "filament_deretraction_speed"@);
    lemma_apply_motion(e4, sp, "filament_deretraction_speed"@);
    lemma_apply_physical(e5, sp, "filament_deretraction_speed"@);
    if let Some(x) = sp.deretraction_speed_mm_s {
        lemma_first_of_dual(e6, "filament_deretraction_speed"@, decimal(x as nat));
        lemma_parse_u16_decimal(x as nat);
    }
}

/// Reading back `bridge_speed` from a profile the specs were applied to.
proof fn lemma_read_back_bridge_speed(es: Entries, sp: FilamentSpecs)
    requires
        keys_distinct(es),
        applicable(sp),
    ensures
        sp.bridge_speed matches Some(x) ==> field_u16(applied(es, sp), "filament_bridge_speed"@) == Some(x),
{
    reveal_strlit("filament_bridge_speed");
    reveal_strlit("filament_density");
    reveal_strlit("temperature_vitrification");
    reveal_strlit("filament_cost");
    reveal_strlit("filament_type");
    reveal_strlit("filament_vendor");
    assert("filament_bridge_speed"@.len() == 21);
    assert("filament_cost"@.len() == 13);
    assert("filament_density"@.len() == 16);
    assert("filament_type"@.len() == 13);
    assert("filament_vendor"@.len() == 15);
    assert("temperature_vitrification"@.len() == 25);
    let e0 = es;
    let e1 = apply_nozzle(e0, sp);
    let e2 = apply_plates(e1, sp);
    let e3 = apply_flow(e2, sp);
    let e4 = apply_fans(e3, sp);
    let e5 = apply_motion(e4, sp);
    let e6 = apply_physical(e5, sp);
    reveal(applied);
    assert(applied(es, sp) == e6);
    lemma_apply_nozzle(e0, sp, "filament_bridge_speed"@);
    lemma_apply_plates(e1, sp, "filament_bridge_speed"@);
    lemma_apply_flow(e2, sp, "filament_bridge_speed"@);
    lemma_apply_fans(e3, sp, "filament_bridge_speed"@);
    lemma_apply_motion(e4, sp, "filament_bridge_speed"@);
    lemma_apply_physical(e5, sp, "filament_bridge_speed"@);
    if let Some(x) = sp.bridge_speed {
        lemma_first_of_dual(e6, "filament_bridge_speed"@, decimal(x as nat));
        lemma_parse_u16_decimal(x as nat);
    }
}

/// Reading back `temperature_vitrification` from a profile the specs were applied to.
proof fn lemma_read_back_temperature_vitrification(es: Entries, sp: FilamentSpecs)
    requires
        keys_distinct(es),
        applicable(sp),
    ensures
        sp.temperature_vitrification matches Some(x) ==> field_u16(applied(es, sp), "temperature_vitrification"@) == Some(x),
{
    reveal_strlit("temperature_vitrification");
    let e0 = es;
    let e1 = apply_nozzle(e0, sp);
    let e2 = apply_plates(e1, sp);
    let e3 = apply_flow(e2, sp);
    let e4 = apply_fans(e3, sp);
    let e5 = apply_motion(e4, sp);
    let e6 = apply_physical(e5, sp);
    reveal(applied);
    assert(applied(es, sp) == e6);
    lemma_apply_nozzle(e0, sp, "temperature_vitrification"@);
    lemma_apply_plates(e1, sp, "temperature_vitrification"@);
    lemma_apply_flow(e2, sp, "temperature_vitrification"@);
    lemma_apply_fans(e3, sp, "temperature_vitrification"@);
    lemma_apply_motion(e4, sp, "temperature_vitrification"@);
    lemma_apply_physical(e5, sp, "temperature_vitrification"@);
    if let Some(x) = sp.temperature_vitrification {
        lemma_first_of_dual(e6, "temperature_vitrification"@, decimal(x as nat));
        lemma_parse_u16_decimal(x as nat);
    }
}

/// Reading back `material` from a profile the specs were applied to.
proof fn lemma_read_back_material(es: Entries, sp: FilamentSpecs)
    requires
        keys_distinct(es),
        applicable(sp),
    ensures
        first_string(applied(es, sp), "filament_type"@) == Some(sp.material@),
{
    reveal_strlit("filament_type");
    let e0 = es;
    let e1 = apply_nozzle(e0, sp);
    let e2 = apply_plates(e1, sp);
    let e3 = apply_flow(e2, sp);
    let e4 = apply_fans(e3, sp);
    let e5 = apply_motion(e4, sp);
    let e6 = apply_physical(e5, sp);
    reveal(applied);
    assert(applied(es, sp) == e6);
    lemma_apply_nozzle(e0, sp, "filament_type"@);
    lemma_apply_plates(e1, sp, "filament_type"@);
    lemma_apply_flow(e2, sp, "filament_type"@);
    lemma_apply_fans(e3, sp, "filament_type"@);
    lemma_apply_motion(e4, sp, "filament_type"@);
    lemma_apply_physical(e5, sp, "filament_type"@);
    lemma_first_of_dual(e6, "filament_type"@, sp.material@);
}

/// Reading back `brand` from a profile the specs were applied to.
proof fn lemma_read_back_brand(es: Entries, sp: FilamentSpecs)
    requires
        keys_distinct(es),
        applicable(sp),
    ensures
        first_string(applied(es, sp), "filament_vendor"@) == Some(sp.brand@),
{
    reveal_strlit("filament_vendor");
    let e0 = es;
    let e1 = apply_nozzle(e0, sp);
    let e2 = apply_plates(e1, sp);
    let e3 = apply_flow(e2, sp);
    let e4 = apply_fans(e3, sp);
    let e5 = apply_motion(e4, sp);
    let e6 = apply_physical(e5, sp);
    reveal(applied);
    assert(applied(es, sp) == e6);
    lemma_apply_nozzle(e0, sp, "filament_vendor"@);
    lemma_apply_plates(e1, sp, "filament_vendor"@);
    lemma_apply_flow(e2, sp, "filament_vendor"@);
    lemma_apply_fans(e3, sp, "filament_vendor"@);
    lemma_apply_motion(e4, sp, "filament_vendor"@);
    lemma_apply_physical(e5, sp, "filament_vendor"@);
    lemma_first_of_dual(e6, "filament_vendor"@, sp.brand@);
}
/// Reading specifications back from a profile they were applied to gives
/// the same brand and material, and every whole-number setting that the
/// specifications give explicitly (temperatures, fan speeds, layer counts
/// and times, speeds).
pub proof fn law_apply_then_extract(es: Entries, sp: FilamentSpecs, back: FilamentSpecs)
    requires
        keys_distinct(es),
        applicable(sp),
        specs_of_profile(applied(es, sp), back),
    ensures
        sp.nozzle_temperature is Some ==> back.nozzle_temperature == sp.nozzle_temperature,
        sp.nozzle_temperature_initial_layer is Some ==> back.nozzle_temperature_initial_layer == sp.nozzle_temperature_initial_layer,
        sp.nozzle_temp_max is Some ==> back.nozzle_temp_max == sp.nozzle_temp_max,
        sp.nozzle_temp_min is Some ==> back.nozzle_temp_min == sp.nozzle_temp_min,
        sp.hot_plate_temp is Some ==> back.hot_plate_temp == sp.hot_plate_temp,
        sp.hot_plate_temp is None && sp.bed_temp_max is Some ==> back.bed_temp_max == sp.bed_temp_max,
        sp.cool_plate_temp is None && sp.bed_temp_min is Some ==> back.bed_temp_min == sp.bed_temp_min,
        sp.hot_plate_temp_initial_layer is Some ==> back.hot_plate_temp_initial_layer == sp.hot_plate_temp_initial_layer,
        sp.cool_plate_temp is Some ==> back.cool_plate_temp == sp.cool_plate_temp,
        sp.cool_plate_temp_initial_layer is Some ==> back.cool_plate_temp_initial_layer == sp.cool_plate_temp_initial_layer,
        sp.eng_plate_temp is Some ==> back.eng_plate_temp == sp.eng_plate_temp,
        sp.eng_plate_temp_initial_layer is Some ==> back.eng_plate_temp_initial_layer == sp.eng_plate_temp_initial_layer,
        sp.textured_plate_temp is Some ==> back.textured_plate_temp == sp.textured_plate_temp,
        sp.textured_plate_temp_initial_layer is Some ==> back.textured_plate_temp_initial_layer == sp.textured_plate_temp_initial_layer,
        sp.fan_max_speed is Some ==> back.fan_max_speed == sp.fan_max_speed,
        sp.fan_min_speed is Some ==> back.fan_min_speed == sp.fan_min_speed,
        sp.overhang_fan_speed is Some ==> back.overhang_fan_speed == sp.overhang_fan_speed,
        sp.close_fan_the_first_x_layers is Some ==> back.close_fan_the_first_x_layers == sp.close_fan_the_first_x_layers,
        sp.additional_cooling_fan_speed is Some ==> back.additional_cooling_fan_speed == sp.additional_cooling_fan_speed,
        sp.slow_down_layer_time is Some ==> back.slow_down_layer_time == sp.slow_down_layer_time,
        sp.slow_down_min_speed is Some ==> back.slow_down_min_speed == sp.slow_down_min_speed,
        sp.retraction_speed_mm_s is Some ==> back.retraction_speed_mm_s == sp.retraction_speed_mm_s,
        sp.deretraction_speed_mm_s is Some ==> back.deretraction_speed_mm_s == sp.deretraction_speed_mm_s,
        sp.bridge_speed is Some ==> back.bridge_speed == sp.bridge_speed,
        sp.temperature_vitrification is Some ==> back.temperature_vitrification == sp.temperature_vitrification,
        back.material@ == sp.material@,
        back.brand@ == sp.brand@,
{
    lemma_read_back_nozzle_temperature(es, sp);
    lemma_read_back_nozzle_temperature_initial_layer(es, sp);
    lemma_read_back_nozzle_temp_max(es, sp);
    lemma_read_back_nozzle_temp_min(es, sp);
    lemma_read_back_hot_plate_temp(es, sp);
    lemma_read_back_hot_plate_temp_initial_layer(es, sp);
    lemma_read_back_cool_plate_temp(es, sp);
    lemma_read_back_cool_plate_temp_initial_layer(es, sp);
    lemma_read_back_eng_plate_temp(es, sp);
    lemma_read_back_eng_plate_temp_initial_layer(es, sp);
    lemma_read_back_textured_plate_temp(es, sp);
    lemma_read_back_textured_plate_temp_initial_layer(es, sp);
    lemma_read_back_fan_max_speed(es, sp);
    lemma_read_back_fan_min_speed(es, sp);
    lemma_read_back_overhang_fan_speed(es, sp);
    lemma_read_back_close_fan_the_first_x_layers(es, sp);
    lemma_read_back_additional_cooling_fan_speed(es, sp);
    lemma_read_back_slow_down_layer_time(es, sp);
    lemma_read_back_slow_down_min_speed(es, sp);
    lemma_read_back_retraction_speed_mm_s(es, sp);
    lemma_read_back_deretraction_speed_mm_s(es, sp);
    lemma_read_back_bridge_speed(es, sp);
    lemma_read_back_temperature_vitrification(es, sp);
    lemma_read_back_material(es, sp);
    lemma_read_back_brand(es, sp);
}

/// Reading back `nozzle_temperature` when only the maximum was given: the
/// maximum, which apply writes in its place.
proof fn lemma_read_back_nozzle_temperature_fallback(es: Entries, sp: FilamentSpecs)
    requires
        keys_distinct(es),
        applicable(sp),
    ensures
        sp.nozzle_temperature is None ==> (sp.nozzle_temp_max matches Some(m) ==> field_u16(applied(es, sp), "nozzle_temperature"@) == Some(m)),
{
    reveal_strlit("nozzle_temperature");
    reveal_strlit("hot_plate_temp");
    reveal_strlit("hot_plate_temp_initial_layer");
    reveal_strlit("cool_plate_temp");
    reveal_strlit("cool_plate_temp_initial_layer");
    reveal_strlit("eng_plate_temp");
    reveal_strlit("eng_plate_temp_initial_layer");
    reveal_strlit("textured_plate_temp");
    reveal_strlit("textured_plate_temp_initial_layer");
    reveal_strlit("filament_max_volumetric_speed");
    reveal_strlit("filament_flow_ratio");
    reveal_strlit("pressure_advance");
    reveal_strlit("fan_max_speed");
    reveal_strlit("fan_min_speed");
    reveal_strlit("overhang_fan_speed");
    reveal_strlit("close_fan_the_first_x_layers");
    reveal_strlit("additional_cooling_fan_speed");
    reveal_strlit("slow_down_layer_time");
    reveal_strlit("slow_down_min_speed");
    reveal_strlit("filament_retraction_length");
    reveal_strlit("filament_retraction_speed");
    reveal_strlit("filament_deretraction_speed");
    reveal_strlit("filament_bridge_speed");
    reveal_strlit("filament_density");
    reveal_strlit("temperature_vitrification");
    reveal_strlit("filament_cost");
    reveal_strlit("filament_type");
    reveal_strlit("filament_vendor");
    assert("additional_cooling_fan_speed"@.len() == 28);
    assert("close_fan_the_first_x_layers"@.len() == 28);
    assert("cool_plate_temp"@.len() == 15);
    assert("cool_plate_temp_initial_layer"@.len() == 29);
    assert("eng_plate_temp"@.len() == 14);
    assert("eng_plate_temp_initial_layer"@.len() == 28);
    assert("fan_max_speed"@.len() == 13);
    assert("fan_min_speed"@.len() == 13);
    assert("filament_bridge_speed"@.len() == 21);
    assert("filament_cost"@.len() == 13);
    assert("filament_density"@.len() == 16);
    assert("filament_deretraction_speed"@.len() == 27);
    assert("filament_flow_ratio"@.len() == 19);
    assert("filament_max_volumetric_speed"@.len() == 29);
    assert("filament_retraction_length"@.len() == 26);
    assert("filament_retraction_speed"@.len() == 25);
    assert("filament_type"@.len() == 13);
    assert("filament_vendor"@.len() == 15);
    assert("hot_plate_temp"@.len() == 14);
    assert("hot_plate_temp_initial_layer"@.len() == 28);
    assert("nozzle_temperature"@.len() == 18);
    assert("overhang_fan_speed"@.len() == 18);
    assert("pressure_advance"@.len() == 16);
    assert("slow_down_layer_time"@.len() == 20);
    assert("slow_down_min_speed"@.len() == 19);
    assert("temperature_vitrification"@.len() == 25);
    assert("textured_plate_temp"@.len() == 19);
    assert("textured_plate_temp_initial_layer"@.len() == 33);
    assert("nozzle_temperature"@[0] != "overhang_fan_speed"@[0]);
    let e0 = es;
    let e1 = apply_nozzle(e0, sp);
    let e2 = apply_plates(e1, sp);
    let e3 = apply_flow(e2, sp);
    let e4 = apply_fans(e3, sp);
    let e5 = apply_motion(e4, sp);
    let e6 = apply_physical(e5, sp);
    reveal(applied);
    assert(applied(es, sp) == e6);
    lemma_apply_nozzle(e0, sp, "nozzle_temperature"@);
    lemma_apply_plates(e1, sp, "nozzle_temperature"@);
    lemma_apply_flow(e2, sp, "nozzle_temperature"@);
    lemma_apply_fans(e3, sp, "nozzle_temperature"@);
    lemma_apply_motion(e4, sp, "nozzle_temperature"@);
    lemma_apply_physical(e5, sp, "nozzle_temperature"@);
    if sp.nozzle_temperature is None {
        if let Some(m) = sp.nozzle_temp_max {
            lemma_first_of_dual(e6, "nozzle_temperature"@, decimal(m as nat));
            lemma_parse_u16_decimal(m as nat);
        }
    }
}

/// Specs without a value for `nozzle_temperature` leave that field of a profile as it was.
proof fn lemma_unset_nozzle_temperature(es: Entries, sp: FilamentSpecs)
    requires
        keys_distinct(es),
        sp.nozzle_temperature is None && sp.nozzle_temp_max is None,
    ensures
        lookup(applied(es, sp), "nozzle_temperature"@) == lookup(es, "nozzle_temperature"@),
{
    reveal_strlit("additional_cooling_fan_speed");
    reveal_strlit("close_fan_the_first_x_layers");
    reveal_strlit("cool_plate_temp");
    reveal_strlit("cool_plate_temp_initial_layer");
    reveal_strlit("eng_plate_temp");
    reveal_strlit("eng_plate_temp_initial_layer");
    reveal_strlit("fan_max_speed");
    reveal_strlit("fan_min_speed");
    reveal_strlit("filament_bridge_speed");
    reveal_strlit("filament_cost");
    reveal_strlit("filament_density");
    reveal_strlit("filament_deretraction_speed");
    reveal_strlit("filament_flow_ratio");
    reveal_strlit("filament_max_volumetric_speed");
    reveal_strlit("filament_retraction_length");
    reveal_strlit("filament_retraction_speed");
    reveal_strlit("filament_type");
    reveal_strlit("filament_vendor");
    reveal_strlit("hot_plate_temp");
    reveal_strlit("hot_plate_temp_initial_layer");
    reveal_strlit("nozzle_temperature");
    reveal_strlit("nozzle_temperature_initial_layer");
    reveal_strlit("nozzle_temperature_range_high");
    reveal_strlit("nozzle_temperature_range_low");
    reveal_strlit("overhang_fan_speed");
    reveal_strlit("pressure_advance");
    reveal_strlit("slow_down_layer_time");
    reveal_strlit("slow_down_min_speed");
    reveal_strlit("temperature_vitrification");
    reveal_strlit("textured_plate_temp");
    reveal_strlit("textured_plate_temp_initial_layer");
    assert("additional_cooling_fan_speed"@.len() == 28);
    assert("close_fan_the_first_x_layers"@.len() == 28);
    assert("cool_plate_temp"@.len() == 15);
    assert("cool_plate_temp_initial_layer"@.len() == 29);
    assert("eng_plate_temp"@.len() == 14);
    assert("eng_plate_temp_initial_layer"@.len() == 28);
    assert("fan_max_speed"@.len() == 13);
    assert("fan_min_speed"@.len() == 13);
    assert("filament_bridge_speed"@.len() == 21);
    assert("filament_cost"@.len() == 13);
    assert("filament_density"@.len() == 16);
    assert("filament_deretraction_speed"@.len() == 27);
    assert("filament_flow_ratio"@.len() == 19);
    assert("filament_max_volumetric_speed"@.len() == 29);
    assert("filament_retraction_length"@.len() == 26);
    assert("filament_retraction_speed"@.len() == 25);
    assert("filament_type"@.len() == 13);
    assert("filament_vendor"@.len() == 15);
    assert("hot_plate_temp"@.len() == 14);
    assert("hot_plate_temp_initial_layer"@.len() == 28);
    assert("nozzle_temperature"@.len() == 18);
    assert("nozzle_temperature_initial_layer"@.len() == 32);
    assert("nozzle_temperature_range_high"@.len() == 29);
    assert("nozzle_temperature_range_low"@.len() == 28);
    assert("overhang_fan_speed"@.len() == 18);
    assert("pressure_advance"@.len() == 16);
    assert("slow_down_layer_time"@.len() == 20);
    assert("slow_down_min_speed"@.len() == 19);
    assert("temperature_vitrification"@.len() == 25);
    assert("textured_plate_temp"@.len() == 19);
    assert("textured_plate_temp_initial_layer"@.len() == 33);
    assert("nozzle_temperature"@[0] != "overhang_fan_speed"@[0]);
    let e0 = es;
    let e1 = apply_nozzle(e0, sp);
    let e2 = apply_plates(e1, sp);
    let e3 = apply_flow(e2, sp);
    let e4 = apply_fans(e3, sp);
    let e5 = apply_motion(e4, sp);
    let e6 = apply_physical(e5, sp);
    reveal(applied);
    assert(applied(es, sp) == e6);
    lemma_apply_nozzle(e0, sp, "nozzle_temperature"@);
    lemma_apply_plates(e1, sp, "nozzle_temperature"@);
    lemma_apply_flow(e2, sp, "nozzle_temperature"@);
    lemma_apply_fans(e3, sp, "nozzle_temperature"@);
    lemma_apply_motion(e4, sp, "nozzle_temperature"@);
    lemma_apply_physical(e5, sp, "nozzle_temperature"@);
    {
        reveal(apply_nozzle);
        let s0 = e0;
        let s1 = set_dual_opt(s0, "nozzle_temperature"@, dec_opt(or_nat(nat16(sp.nozzle_temperature), nat16(sp.nozzle_temp_max))));
        let s2 = set_dual_opt(s1, "nozzle_temperature_initial_layer"@, dec_opt(or_nat(nat16(sp.nozzle_temperature_initial_layer), or_nat(plus(nat16(sp.nozzle_temperature), 5), plus(nat16(sp.nozzle_temp_max), 5)))));
        let s3 = set_dual_opt(s2, "nozzle_temperature_range_high"@, dec_opt(plus(nat16(sp.nozzle_temp_max), 20)));
        let s4 = set_dual_opt(s3, "nozzle_temperature_range_low"@, dec_opt(nat16(sp.nozzle_temp_min)));
        assert(apply_nozzle(s0, sp) == s4);
        lemma_set_dual_opt(s0, "nozzle_temperature"@, dec_opt(or_nat(nat16(sp.nozzle_temperature), nat16(sp.nozzle_temp_max))), "nozzle_temperature"@);
        lemma_set_dual_opt(s1, "nozzle_temperature_initial_layer"@, dec_opt(or_nat(nat16(sp.nozzle_temperature_initial_layer), or_nat(plus(nat16(sp.nozzle_temperature), 5), plus(nat16(sp.nozzle_temp_max), 5)))), "nozzle_temperature"@);
        lemma_set_dual_opt(s2, "nozzle_temperature_range_high"@, dec_opt(plus(nat16(sp.nozzle_temp_max), 20)), "nozzle_temperature"@);
        lemma_set_dual_opt(s3, "nozzle_temperature_range_low"@, dec_opt(nat16(sp.nozzle_temp_min)), "nozzle_temperature"@);
    }
}

/// Specs without a value for `nozzle_temperature_range_high` leave that field of a profile as it was.
proof fn lemma_unset_nozzle_temperature_range_high(es: Entries, sp: FilamentSpecs)
    requires
        keys_distinct(es),
        sp.nozzle_temp_max is None,
    ensures
        lookup(applied(es, sp), "nozzle_temperature_range_high"@) == lookup(es, "nozzle_temperature_range_high"@),
{
    reveal_strlit("additional_cooling_fan_speed");
    reveal_strlit("close_fan_the_first_x_layers");
    reveal_strlit("cool_plate_temp");
    reveal_strlit("cool_plate_temp_initial_layer");
    reveal_strlit("eng_plate_temp");
    reveal_strlit("eng_plate_temp_initial_layer");
    reveal_strlit("fan_max_speed");
    reveal_strlit("fan_min_speed");
    reveal_strlit("filament_bridge_speed");
    reveal_strlit("filament_cost");
    reveal_strlit("filament_density");
    reveal_strlit("filament_deretraction_speed");
    reveal_strlit("filament_flow_ratio");
    reveal_strlit("filament_max_volumetric_speed");
    reveal_strlit("filament_retraction_length");
    reveal_strlit("filament_retraction_speed");
    reveal_strlit("filament_type");
    reveal_strlit("filament_vendor");
    reveal_strlit("hot_plate_temp");
    reveal_strlit("hot_plate_temp_initial_layer");
    reveal_strlit("nozzle_temperature");
    reveal_strlit("nozzle_temperature_initial_layer");
    reveal_strlit("nozzle_temperature_range_high");
    reveal_strlit("nozzle_temperature_range_low");
    reveal_strlit("overhang_fan_speed");
    reveal_strlit("pressure_advance");
    reveal_strlit("slow_down_layer_time");
    reveal_strlit("slow_down_min_speed");
    reveal_strlit("temperature_vitrification");
    reveal_strlit("textured_plate_temp");
    reveal_strlit("textured_plate_temp_initial_layer");
    assert("additional_cooling_fan_speed"@.len() == 28);
    assert("close_fan_the_first_x_layers"@.len() == 28);
    assert("cool_plate_temp"@.len() == 15);
    assert("cool_plate_temp_initial_layer"@.len() == 29);
    assert("eng_plate_temp"@.len() == 14);
    assert("eng_plate_temp_initial_layer"@.len() == 28);
    assert("fan_max_speed"@.len() == 13);
    assert("fan_min_speed"@.len() == 13);
    assert("filament_bridge_speed"@.len() == 21);
    assert("filament_cost"@.len() == 13);
    assert("filament_density"@.len() == 16);
    assert("filament_deretraction_speed"@.len() == 27);
    assert("filament_flow_ratio"@.len() == 19);
    assert("filament_max_volumetric_speed"@.len() == 29);
    assert("filament_retraction_length"@.len() == 26);
    assert("filament_retraction_speed"@.len() == 25);
    assert("filament_type"@.len() == 13);
    assert("filament_vendor"@.len() == 15);
    assert("hot_plate_temp"@.len() == 14);
    assert("hot_plate_temp_initial_layer"@.len() == 28);
    assert("nozzle_temperature"@.len() == 18);
    assert("nozzle_temperature_initial_layer"@.len() == 32);
    assert("nozzle_temperature_range_high"@.len() == 29);
    assert("nozzle_temperature_range_low"@.len() == 28);
    assert("overhang_fan_speed"@.len() == 18);
    assert("pressure_advance"@.len() == 16);
    assert("slow_down_layer_time"@.len() == 20);
    assert("slow_down_min_speed"@.len() == 19);
    assert("temperature_vitrification"@.len() == 25);
    assert("textured_plate_temp"@.len() == 19);
    assert("textured_plate_temp_initial_layer"@.len() == 33);
    assert("nozzle_temperature_range_high"@[0] != "cool_plate_temp_initial_layer"@[0]);
    assert("nozzle_temperature_range_high"@[0] != "filament_max_volumetric_speed"@[0]);
    let e0 = es;
    let e1 = apply_nozzle(e0, sp);
    let e2 = apply_plates(e1, sp);
    let e3 = apply_flow(e2, sp);
    let e4 = apply_fans(e3, sp);
    let e5 = apply_motion(e4, sp);
    let e6 = apply_physical(e5, sp);
    reveal(applied);
    assert(applied(es, sp) == e6);
    lemma_apply_nozzle(e0, sp, "nozzle_temperature_range_high"@);
    lemma_apply_plates(e1, sp, "nozzle_temperature_range_high"@);
    lemma_apply_flow(e2, sp, "nozzle_temperature_range_high"@);
    lemma_apply_fans(e3, sp, "nozzle_temperature_range_high"@);
    lemma_apply_motion(e4, sp, "nozzle_temperature_range_high"@);
    lemma_apply_physical(e5, sp, "nozzle_temperature_range_high"@);
    {
        reveal(apply_nozzle);
        let s0 = e0;
        let s1 = set_dual_opt(s0, "nozzle_temperature"@, dec_opt(or_nat(nat16(sp.nozzle_temperature), nat16(sp.nozzle_temp_max))));
        let s2 = set_dual_opt(s1, "nozzle_temperature_initial_layer"@, dec_opt(or_nat(nat16(sp.nozzle_temperature_initial_layer), or_nat(plus(nat16(sp.nozzle_temperature), 5), plus(nat16(sp.nozzle_temp_max), 5)))));
        let s3 = set_dual_opt(s2, "nozzle_temperature_range_high"@, dec_opt(plus(nat16(sp.nozzle_temp_max), 20)));
        let s4 = set_dual_opt(s3, "nozzle_temperature_range_low"@, dec_opt(nat16(sp.nozzle_temp_min)));
        assert(apply_nozzle(s0, sp) == s4);
        lemma_set_dual_opt(s0, "nozzle_temperature"@, dec_opt(or_nat(nat16(sp.nozzle_temperature), nat16(sp.nozzle_temp_max))), "nozzle_temperature_range_high"@);
        lemma_set_dual_opt(s1, "nozzle_temperature_initial_layer"@, dec_opt(or_nat(nat16(sp.nozzle_temperature_initial_layer), or_nat(plus(nat16(sp.nozzle_temperature), 5), plus(nat16(sp.nozzle_temp_max), 5)))), "nozzle_temperature_range_high"@);
        lemma_set_dual_opt(s2, "nozzle_temperature_range_high"@, dec_opt(plus(nat16(sp.nozzle_temp_max), 20)), "nozzle_temperature_range_high"@);
        lemma_set_dual_opt(s3, "nozzle_temperature_range_low"@, dec_opt(nat16(sp.nozzle_temp_min)), "nozzle_temperature_range_high"@);
    }
}

/// Specs without a value for `nozzle_temperature_range_low` leave that field of a profile as it was.
proof fn lemma_unset_nozzle_temperature_range_low(es: Entries, sp: FilamentSpecs)
    requires
        keys_distinct(es),
        sp.nozzle_temp_min is None,
    ensures
        lookup(applied(es, sp), "nozzle_temperature_range_low"@) == lookup(es, "nozzle_temperature_range_low"@),
{
    reveal_strlit("additional_cooling_fan_speed");
    reveal_strlit("close_fan_the_first_x_layers");
    reveal_strlit("cool_plate_temp");
    reveal_strlit("cool_plate_temp_initial_layer");
    reveal_strlit("eng_plate_temp");
    reveal_strlit("eng_plate_temp_initial_layer");
    reveal_strlit("fan_max_speed");
    reveal_strlit("fan_min_speed");
    reveal_strlit("filament_bridge_speed");
    reveal_strlit("filament_cost");
    reveal_strlit("filament_density");
    reveal_strlit("filament_deretraction_speed");
    reveal_strlit("filament_flow_ratio");
    reveal_strlit("filament_max_volumetric_speed");
    reveal_strlit("filament_retraction_length");
    reveal_strlit("filament_retraction_speed");
    reveal_strlit("filament_type");
    reveal_strlit("filament_vendor");
    reveal_strlit("hot_plate_temp");
    reveal_strlit("hot_plate_temp_initial_layer");
    reveal_strlit("nozzle_temperature");
    reveal_strlit("nozzle_temperature_initial_layer");
    reveal_strlit("nozzle_temperature_range_high");
    reveal_strlit("nozzle_temperature_range_low");
    reveal_strlit("overhang_fan_speed");
    reveal_strlit("pressure_advance");
    reveal_strlit("slow_down_layer_time");
    reveal_strlit("slow_down_min_speed");
    reveal_strlit("temperature_vitrification");
    reveal_strlit("textured_plate_temp");
    reveal_strlit("textured_plate_temp_initial_layer");
    assert("additional_cooling_fan_speed"@.len() == 28);
    assert("close_fan_the_first_x_layers"@.len() == 28);
    assert("cool_plate_temp"@.len() == 15);
    assert("cool_plate_temp_initial_layer"@.len() == 29);
    assert("eng_plate_temp"@.len() == 14);
    assert("eng_plate_temp_initial_layer"@.len() == 28);
    assert("fan_max_speed"@.len() == 13);
    assert("fan_min_speed"@.len() == 13);
    assert("filament_bridge_speed"@.len() == 21);
    assert("filament_cost"@.len() == 13);
    assert("filament_density"@.len() == 16);
    assert("filament_deretraction_speed"@.len() == 27);
    assert("filament_flow_ratio"@.len() == 19);
    assert("filament_max_volumetric_speed"@.len() == 29);
    assert("filament_retraction_length"@.len() == 26);
    assert("filament_retraction_speed"@.len() == 25);
    assert("filament_type"@.len() == 13);
    assert("filament_vendor"@.len() == 15);
    assert("hot_plate_temp"@.len() == 14);
    assert("hot_plate_temp_initial_layer"@.len() == 28);
    assert("nozzle_temperature"@.len() == 18);
    assert("nozzle_temperature_initial_layer"@.len() == 32);
    assert("nozzle_temperature_range_high"@.len() == 29);
    assert("nozzle_temperature_range_low"@.len() == 28);
    assert("overhang_fan_speed"@.len() == 18);
    assert("pressure_advance"@.len() == 16);
    assert("slow_down_layer_time"@.len() == 20);
    assert("slow_down_min_speed"@.len() == 19);
    assert("temperature_vitrification"@.len() == 25);
    assert("textured_plate_temp"@.len() == 19);
    assert("textured_plate_temp_initial_layer"@.len() == 33);
    assert("nozzle_temperature_range_low"@[0] != "additional_cooling_fan_speed"@[0]);
    assert("nozzle_temperature_range_low"@[0] != "close_fan_the_first_x_layers"@[0]);
    assert("nozzle_temperature_range_low"@[0] != "eng_plate_temp_initial_layer"@[0]);
    assert("nozzle_temperature_range_low"@[0] != "hot_plate_temp_initial_layer"@[0]);
    let e0 = es;
    let e1 = apply_nozzle(e0, sp);
    let e2 = apply_plates(e1, sp);
    let e3 = apply_flow(e2, sp);
    let e4 = apply_fans(e3, sp);
    let e5 = apply_motion(e4, sp);
    let e6 = apply_physical(e5, sp);
    reveal(applied);
    assert(applied(es, sp) == e6);
    lemma_apply_nozzle(e0, sp, "nozzle_temperature_range_low"@);
    lemma_apply_plates(e1, sp, "nozzle_temperature_range_low"@);
    lemma_apply_flow(e2, sp, "nozzle_temperature_range_low"@);
    lemma_apply_fans(e3, sp, "nozzle_temperature_range_low"@);
    lemma_apply_motion(e4, sp, "nozzle_temperature_range_low"@);
    lemma_apply_physical(e5, sp, "nozzle_temperature_range_low"@);
    {
        reveal(apply_nozzle);
        let s0 = e0;
        let s1 = set_dual_opt(s0, "nozzle_temperature"@, dec_opt(or_nat(nat16(sp.nozzle_temperature), nat16(sp.nozzle_temp_max))));
        let s2 = set_dual_opt(s1, "nozzle_temperature_initial_layer"@, dec_opt(or_nat(nat16(sp.nozzle_temperature_initial_layer), or_nat(plus(nat16(sp.nozzle_temperature), 5), plus(nat16(sp.nozzle_temp_max), 5)))));
        let s3 = set_dual_opt(s2, "nozzle_temperature_range_high"@, dec_opt(plus(nat16(sp.nozzle_temp_max), 20)));
        let s4 = set_dual_opt(s3, "nozzle_temperature_range_low"@, dec_opt(nat16(sp.nozzle_temp_min)));
        assert(apply_nozzle(s0, sp) == s4);
        lemma_set_dual_opt(s0, "nozzle_temperature"@, dec_opt(or_nat(nat16(sp.nozzle_temperature), nat16(sp.nozzle_temp_max))), "nozzle_temperature_range_low"@);
        lemma_set_dual_opt(s1, "nozzle_temperature_initial_layer"@, dec_opt(or_nat(nat16(sp.nozzle_temperature_initial_layer), or_nat(plus(nat16(sp.nozzle_temperature), 5), plus(nat16(sp.nozzle_temp_max), 5)))), "nozzle_temperature_range_low"@);
        lemma_set_dual_opt(s2, "nozzle_temperature_range_high"@, dec_opt(plus(nat16(sp.nozzle_temp_max), 20)), "nozzle_temperature_range_low"@);
        lemma_set_dual_opt(s3, "nozzle_temperature_range_low"@, dec_opt(nat16(sp.nozzle_temp_min)), "nozzle_temperature_range_low"@);
    }
}

/// Specs without a value for `filament_retraction_speed` leave that field of a profile as it was.
proof fn lemma_unset_filament_retraction_speed(es: Entries, sp: FilamentSpecs)
    requires
        keys_distinct(es),
        sp.retraction_speed_mm_s is None,
    ensures
        lookup(applied(es, sp), "filament_retraction_speed"@) == lookup(es, "filament_retraction_speed"@),
{
    reveal_strlit("additional_cooling_fan_speed");
    reveal_strlit("close_fan_the_first_x_layers");
    reveal_strlit("cool_plate_temp");
    reveal_strlit("cool_plate_temp_initial_layer");
    reveal_strlit("eng_plate_temp");
    reveal_strlit("eng_plate_temp_initial_layer");
    reveal_strlit("fan_max_speed");
    reveal_strlit("fan_min_speed");
    reveal_strlit("filament_bridge_speed");
    reveal_strlit("filament_cost");
    reveal_strlit("filament_density");
    reveal_strlit("filament_deretraction_speed");
    reveal_strlit("filament_flow_ratio");
    reveal_strlit("filament_max_volumetric_speed");
    reveal_strlit("filament_retraction_length");
    reveal_strlit("filament_retraction_speed");
    reveal_strlit("filament_type");
    reveal_strlit("filament_vendor");
    reveal_strlit("hot_plate_temp");
    reveal_strlit("hot_plate_temp_initial_layer");
    reveal_strlit("nozzle_temperature");
    reveal_strlit("nozzle_temperature_initial_layer");
    reveal_strlit("nozzle_temperature_range_high");
    reveal_strlit("nozzle_temperature_range_low");
    reveal_strlit("overhang_fan_speed");
    reveal_strlit("pressure_advance");
    reveal_strlit("slow_down_layer_time");
    reveal_strlit("slow_down_min_speed");
    reveal_strlit("temperature_vitrification");
    reveal_strlit("textured_plate_temp");
    reveal_strlit("textured_plate_temp_initial_layer");
    assert("additional_cooling_fan_speed"@.len() == 28);
    assert("close_fan_the_first_x_layers"@.len() == 28);
    assert("cool_plate_temp"@.len() == 15);
    assert("cool_plate_temp_initial_layer"@.len() == 29);
    assert("eng_plate_temp"@.len() == 14);
    assert("eng_plate_temp_initial_layer"@.len() == 28);
    assert("fan_max_speed"@.len() == 13);
    assert("fan_min_speed"@.len() == 13);
    assert("filament_bridge_speed"@.len() == 21);
    assert("filament_cost"@.len() == 13);
    assert("filament_density"@.len() == 16);
    assert("filament_deretraction_speed"@.len() == 27);
    assert("filament_flow_ratio"@.len() == 19);
    assert("filament_max_volumetric_speed"@.len() == 29);
    assert("filament_retraction_length"@.len() == 26);
    assert("filament_retraction_speed"@.len() == 25);
    assert("filament_type"@.len() == 13);
    assert("filament_vendor"@.len() == 15);
    assert("hot_plate_temp"@.len() == 14);
    assert("hot_plate_temp_initial_layer"@.len() == 28);
    assert("nozzle_temperature"@.len() == 18);
    assert("nozzle_temperature_initial_layer"@.len() == 32);
    assert("nozzle_temperature_range_high"@.len() == 29);
    assert("nozzle_temperature_range_low"@.len() == 28);
    assert("overhang_fan_speed"@.len() == 18);
    assert("pressure_advance"@.len() == 16);
    assert("slow_down_layer_time"@.len() == 20);
    assert("slow_down_min_speed"@.len() == 19);
    assert("temperature_vitrification"@.len() == 25);
    assert("textured_plate_temp"@.len() == 19);
    assert("textured_plate_temp_initial_layer"@.len() == 33);
    assert("filament_retraction_speed"@[0] != "temperature_vitrification"@[0]);
    let e0 = es;
    let e1 = apply_nozzle(e0, sp);
    let e2 = apply_plates(e1, sp);
    let e3 = apply_flow(e2, sp);
    let e4 = apply_fans(e3, sp);
    let e5 = apply_motion(e4, sp);
    let e6 = apply_physical(e5, sp);
    reveal(applied);
    assert(applied(es, sp) == e6);
    lemma_apply_nozzle(e0, sp, "filament_retraction_speed"@);
    lemma_apply_plates(e1, sp, "filament_retraction_speed"@);
    lemma_apply_flow(e2, sp, "filament_retraction_speed"@);
    lemma_apply_fans(e3, sp, "filament_retraction_speed"@);
    lemma_apply_motion(e4, sp, "filament_retraction_speed"@);
    lemma_apply_physical(e5, sp, "filament_retraction_speed"@);
    {
        reveal(apply_motion);
        let s0 = e4;
        let s1 = set_dual_opt(s0, "slow_down_layer_time"@, dec_opt(nat8(sp.slow_down_layer_time)));
        let s2 = set_dual_opt(s1, "slow_down_min_speed"@, dec_opt(nat16(sp.slow_down_min_speed)));
        let s3 = set_dual_opt(s2, "filament_retraction_length"@, fixed_opt(sp.retraction_distance_mm, 1));
        let s4 = set_dual_opt(s3, "filament_retraction_speed"@, dec_opt(nat16(sp.retraction_speed_mm_s)));
        let s5 = set_dual_opt(s4, "filament_deretraction_speed"@, dec_opt(nat16(sp.deretraction_speed_mm_s)));
        let s6 = set_dual_opt(s5, "filament_bridge_speed"@, dec_opt(nat16(sp.bridge_speed)));
        assert(apply_motion(s0, sp) == s6);
        lemma_set_dual_opt(s0, "slow_down_layer_time"@, dec_opt(nat8(sp.slow_down_layer_time)), "filament_retraction_speed"@);
        lemma_set_dual_opt(s1, "slow_down_min_speed"@, dec_opt(nat16(sp.slow_down_min_speed)), "filament_retraction_speed"@);
        lemma_set_dual_opt(s2, "filament_retraction_length"@, fixed_opt(sp.retraction_distance_mm, 1), "filament_retraction_speed"@);
        lemma_set_dual_opt(s3, "filament_retraction_speed"@, dec_opt(nat16(sp.retraction_speed_mm_s)), "filament_retraction_speed"@);
        lemma_set_dual_opt(s4, "filament_deretraction_speed"@, dec_opt(nat16(sp.deretraction_speed_mm_s)), "filament_retraction_speed"@);
        lemma_set_dual_opt(s5, "filament_bridge_speed"@, dec_opt(nat16(sp.bridge_speed)), "filament_retraction_speed"@);
    }
}

/// Specs without a value for `filament_bridge_speed` leave that field of a profile as it was.
proof fn lemma_unset_filament_bridge_speed(es: Entries, sp: FilamentSpecs)
    requires
        keys_distinct(es),
        sp.bridge_speed is None,
    ensures
        lookup(applied(es, sp), "filament_bridge_speed"@) == lookup(es, "filament_bridge_speed"@),
{
    reveal_strlit("additional_cooling_fan_speed");
    reveal_strlit("close_fan_the_first_x_layers");
    reveal_strlit("cool_plate_temp");
    reveal_strlit("cool_plate_temp_initial_layer");
    reveal_strlit("eng_plate_temp");
    reveal_strlit("eng_plate_temp_initial_layer");
    reveal_strlit("fan_max_speed");
    reveal_strlit("fan_min_speed");
    reveal_strlit("filament_bridge_speed");
    reveal_strlit("filament_cost");
    reveal_strlit("filament_density");
    reveal_strlit("filament_deretraction_speed");
    reveal_strlit("filament_flow_ratio");
    reveal_strlit("filament_max_volumetric_speed");
    reveal_strlit("filament_retraction_length");
    reveal_strlit("filament_retraction_speed");
    reveal_strlit("filament_type");
    reveal_strlit("filament_vendor");
    reveal_strlit("hot_plate_temp");
    reveal_strlit("hot_plate_temp_initial_layer");
    reveal_strlit("nozzle_temperature");
    reveal_strlit("nozzle_temperature_initial_layer");
    reveal_strlit("nozzle_temperature_range_high");
    reveal_strlit("nozzle_temperature_range_low");
    reveal_strlit("overhang_fan_speed");
    reveal_strlit("pressure_advance");
    reveal_strlit("slow_down_layer_time");
    reveal_strlit("slow_down_min_speed");
    reveal_strlit("temperature_vitrification");
    reveal_strlit("textured_plate_temp");
    reveal_strlit("textured_plate_temp_initial_layer");
    assert("additional_cooling_fan_speed"@.len() == 28);
    assert("close_fan_the_first_x_layers"@.len() == 28);
    assert("cool_plate_temp"@.len() == 15);
    assert("cool_plate_temp_initial_layer"@.len() == 29);
    assert("eng_plate_temp"@.len() == 14);
    assert("eng_plate_temp_initial_layer"@.len() == 28);
    assert("fan_max_speed"@.len() == 13);
    assert("fan_min_speed"@.len() == 13);
    assert("filament_bridge_speed"@.len() == 21);
    assert("filament_cost"@.len() == 13);
    assert("filament_density"@.len() == 16);
    assert("filament_deretraction_speed"@.len() == 27);
    assert("filament_flow_ratio"@.len() == 19);
    assert("filament_max_volumetric_speed"@.len() == 29);
    assert("filament_retraction_length"@.len() == 26);
    assert("filament_retraction_speed"@.len() == 25);
    assert("filament_type"@.len() == 13);
    assert("filament_vendor"@.len() == 15);
    assert("hot_plate_temp"@.len() == 14);
    assert("hot_plate_temp_initial_layer"@.len() == 28);
    assert("nozzle_temperature"@.len() == 18);
    assert("nozzle_temperature_initial_layer"@.len() == 32);
    assert("nozzle_temperature_range_high"@.len() == 29);
    assert("nozzle_temperature_range_low"@.len() == 28);
    assert("overhang_fan_speed"@.len() == 18);
    assert("pressure_advance"@.len() == 16);
    assert("slow_down_layer_time"@.len() == 20);
    assert("slow_down_min_speed"@.len() == 19);
    assert("temperature_vitrification"@.len() == 25);
    assert("textured_plate_temp"@.len() == 19);
    assert("textured_plate_temp_initial_layer"@.len() == 33);
    let e0 = es;
    let e1 = apply_nozzle(e0, sp);
    let e2 = apply_plates(e1, sp);
    let e3 = apply_flow(e2, sp);
    let e4 = apply_fans(e3, sp);
    let e5 = apply_motion(e4, sp);
    let e6 = apply_physical(e5, sp);
    reveal(applied);
    assert(applied(es, sp) == e6);
    lemma_apply_nozzle(e0, sp, "filament_bridge_speed"@);
    lemma_apply_plates(e1, sp, "filament_bridge_speed"@);
    lemma_apply_flow(e2, sp, "filament_bridge_speed"@);
    lemma_apply_fans(e3, sp, "filament_bridge_speed"@);
    lemma_apply_motion(e4, sp, "filament_bridge_speed"@);
    lemma_apply_physical(e5, sp, "filament_bridge_speed"@);
    {
        reveal(apply_motion);
        let s0 = e4;
        let s1 = set_dual_opt(s0, "slow_down_layer_time"@, dec_opt(nat8(sp.slow_down_layer_time)));
        let s2 = set_dual_opt(s1, "slow_down_min_speed"@, dec_opt(nat16(sp.slow_down_min_speed)));
        let s3 = set_dual_opt(s2, "filament_retraction_length"@, fixed_opt(sp.retraction_distance_mm, 1));
        let s4 = set_dual_opt(s3, "filament_retraction_speed"@, dec_opt(nat16(sp.retraction_speed_mm_s)));
        let s5 = set_dual_opt(s4, "filament_deretraction_speed"@, dec_opt(nat16(sp.deretraction_speed_mm_s)));
        let s6 = set_dual_opt(s5, "filament_bridge_speed"@, dec_opt(nat16(sp.bridge_speed)));
        assert(apply_motion(s0, sp) == s6);
        lemma_set_dual_opt(s0, "slow_down_layer_time"@, dec_opt(nat8(sp.slow_down_layer_time)), "filament_bridge_speed"@);
        lemma_set_dual_opt(s1, "slow_down_min_speed"@, dec_opt(nat16(sp.slow_down_min_speed)), "filament_bridge_speed"@);
        lemma_set_dual_opt(s2, "filament_retraction_length"@, fixed_opt(sp.retraction_distance_mm, 1), "filament_bridge_speed"@);
        lemma_set_dual_opt(s3, "filament_retraction_speed"@, dec_opt(nat16(sp.retraction_speed_mm_s)), "filament_bridge_speed"@);
        lemma_set_dual_opt(s4, "filament_deretraction_speed"@, dec_opt(nat16(sp.deretraction_speed_mm_s)), "filament_bridge_speed"@);
        lemma_set_dual_opt(s5, "filament_bridge_speed"@, dec_opt(nat16(sp.bridge_speed)), "filament_bridge_speed"@);
    }
}

/// Specs without a value for `temperature_vitrification` leave that field of a profile as it was.
proof fn lemma_unset_temperature_vitrification(es: Entries, sp: FilamentSpecs)
    requires
        keys_distinct(es),
        sp.temperature_vitrification is None,
    ensures
        lookup(applied(es, sp), "temperature_vitrification"@) == lookup(es, "temperature_vitrification"@),
{
    reveal_strlit("additional_cooling_fan_speed");
    reveal_strlit("close_fan_the_first_x_layers");
    reveal_strlit("cool_plate_temp");
    reveal_strlit("cool_plate_temp_initial_layer");
    reveal_strlit("eng_plate_temp");
    reveal_strlit("eng_plate_temp_initial_layer");
    reveal_strlit("fan_max_speed");
    reveal_strlit("fan_min_speed");
    reveal_strlit("filament_bridge_speed");
    reveal_strlit("filament_cost");
    reveal_strlit("filament_density");
    reveal_strlit("filament_deretraction_speed");
    reveal_strlit("filament_flow_ratio");
    reveal_strlit("filament_max_volumetric_speed");
    reveal_strlit("filament_retraction_length");
    reveal_strlit("filament_retraction_speed");
    reveal_strlit("filament_type");
    reveal_strlit("filament_vendor");
    reveal_strlit("hot_plate_temp");
    reveal_strlit("hot_plate_temp_initial_layer");
    reveal_strlit("nozzle_temperature");
    reveal_strlit("nozzle_temperature_initial_layer");
    reveal_strlit("nozzle_temperature_range_high");
    reveal_strlit("nozzle_temperature_range_low");
    reveal_strlit("overhang_fan_speed");
    reveal_strlit("pressure_advance");
    reveal_strlit("slow_down_layer_time");
    reveal_strlit("slow_down_min_speed");
    reveal_strlit("temperature_vitrification");
    reveal_strlit("textured_plate_temp");
    reveal_strlit("textured_plate_temp_initial_layer");
    assert("additional_cooling_fan_speed"@.len() == 28);
    assert("close_fan_the_first_x_layers"@.len() == 28);
    assert("cool_plate_temp"@.len() == 15);
    assert("cool_plate_temp_initial_layer"@.len() == 29);
    assert("eng_plate_temp"@.len() == 14);
    assert("eng_plate_temp_initial_layer"@.len() == 28);
    assert("fan_max_speed"@.len() == 13);
    assert("fan_min_speed"@.len() == 13);
    assert("filament_bridge_speed"@.len() == 21);
    assert("filament_cost"@.len() == 13);
    assert("filament_density"@.len() == 16);
    assert("filament_deretraction_speed"@.len() == 27);
    assert("filament_flow_ratio"@.len() == 19);
    assert("filament_max_volumetric_speed"@.len() == 29);
    assert("filament_retraction_length"@.len() == 26);
    assert("filament_retraction_speed"@.len() == 25);
    assert("filament_type"@.len() == 13);
    assert("filament_vendor"@.len() == 15);
    assert("hot_plate_temp"@.len() == 14);
    assert("hot_plate_temp_initial_layer"@.len() == 28);
    assert("nozzle_temperature"@.len() == 18);
    assert("nozzle_temperature_initial_layer"@.len() == 32);
    assert("nozzle_temperature_range_high"@.len() == 29);
    assert("nozzle_temperature_range_low"@.len() == 28);
    assert("overhang_fan_speed"@.len() == 18);
    assert("pressure_advance"@.len() == 16);
    assert("slow_down_layer_time"@.len() == 20);
    assert("slow_down_min_speed"@.len() == 19);
    assert("temperature_vitrification"@.len() == 25);
    assert("textured_plate_temp"@.len() == 19);
    assert("textured_plate_temp_initial_layer"@.len() == 33);
    assert("temperature_vitrification"@[0] != "filament_retraction_speed"@[0]);
    let e0 = es;
    let e1 = apply_nozzle(e0, sp);
    let e2 = apply_plates(e1, sp);
    let e3 = apply_flow(e2, sp);
    let e4 = apply_fans(e3, sp);
    let e5 = apply_motion(e4, sp);
    let e6 = apply_physical(e5, sp);
    reveal(applied);
    assert(applied(es, sp) == e6);
    lemma_apply_nozzle(e0, sp, "temperature_vitrification"@);
    lemma_apply_plates(e1, sp, "temperature_vitrification"@);
    lemma_apply_flow(e2, sp, "temperature_vitrification"@);
    lemma_apply_fans(e3, sp, "temperature_vitrification"@);
    lemma_apply_motion(e4, sp, "temperature_vitrification"@);
    lemma_apply_physical(e5, sp, "temperature_vitrification"@);
    {
        reveal(apply_physical);
        let s0 = e5;
        let s1 = set_dual_opt(s0, "filament_density"@, fixed_opt(sp.density_g_cm3, 2));
        let s2 = set_dual_opt(s1, "temperature_vitrification"@, dec_opt(nat16(sp.temperature_vitrification)));
        let s3 = set_dual_opt(s2, "filament_cost"@, fixed_opt(sp.filament_cost, 2));
        let s4 = set_dual_opt(s3, "filament_type"@, Some(sp.material@));
        let s5 = set_dual_opt(s4, "filament_vendor"@, Some(sp.brand@));
        assert(apply_physical(s0, sp) == s5);
        lemma_set_dual_opt(s0, "filament_density"@, fixed_opt(sp.density_g_cm3, 2), "temperature_vitrification"@);
        lemma_set_dual_opt(s1, "temperature_vitrification"@, dec_opt(nat16(sp.temperature_vitrification)), "temperature_vitrification"@);
        lemma_set_dual_opt(s2, "filament_cost"@, fixed_opt(sp.filament_cost, 2), "temperature_vitrification"@);
        lemma_set_dual_opt(s3, "filament_type"@, Some(sp.material@), "temperature_vitrification"@);
        lemma_set_dual_opt(s4, "filament_vendor"@, Some(sp.brand@), "temperature_vitrification"@);
    }
}


/// Specifications applied to an empty profile read back exactly: brand and
/// material; the nozzle range; the nozzle temperature, or the range's
/// maximum where no temperature was given; the retraction and bridge speeds
/// and the softening temperature. A value the specifications leave out
/// reads back as absent.
pub proof fn law_apply_to_empty_then_extract(sp: FilamentSpecs, back: FilamentSpecs)
    requires
        applicable(sp),
        specs_of_profile(applied(Seq::empty(), sp), back),
    ensures
        back.material@ == sp.material@,
        back.brand@ == sp.brand@,
        back.nozzle_temp_min == sp.nozzle_temp_min,
        back.nozzle_temp_max == sp.nozzle_temp_max,
        back.nozzle_temperature == (match sp.nozzle_temperature {
            Some(t) => Some(t),
            None => sp.nozzle_temp_max,
        }),
        back.retraction_speed_mm_s == sp.retraction_speed_mm_s,
        back.bridge_speed == sp.bridge_speed,
        back.temperature_vitrification == sp.temperature_vitrification,
{
    let es = Seq::<(Seq<char>, ValueView)>::empty();
    assert(keys_distinct(es));
    law_apply_then_extract(es, sp, back);
    lemma_read_back_nozzle_temperature_fallback(es, sp);
    let ap = applied(es, sp);
    if sp.nozzle_temperature is None && sp.nozzle_temp_max is None {
        lemma_unset_nozzle_temperature(es, sp);
        assert(lookup(ap, "nozzle_temperature"@) is None);
    }
    if sp.nozzle_temp_max is None {
        lemma_unset_nozzle_temperature_range_high(es, sp);
        assert(lookup(ap, "nozzle_temperature_range_high"@) is None);
    }
    if sp.nozzle_temp_min is None {
        lemma_unset_nozzle_temperature_range_low(es, sp);
        assert(lookup(ap, "nozzle_temperature_range_low"@) is None);
    }
    if sp.retraction_speed_mm_s is None {
        lemma_unset_filament_retraction_speed(es, sp);
        assert(lookup(ap, "filament_retraction_speed"@) is None);
    }
    if sp.bridge_speed is None {
        lemma_unset_filament_bridge_speed(es, sp);
        assert(lookup(ap, "filament_bridge_speed"@) is None);
    }
    if sp.temperature_vitrification is None {
        lemma_unset_temperature_vitrification(es, sp);
        assert(lookup(ap, "temperature_vitrification"@) is None);
    }
    if let Some(m) = sp.nozzle_temp_max {
        assert(back.nozzle_temp_max == Some(((m + 20) as u16 - 20) as u16));
    }
}

/// The bed temperature range survives a round trip: specifications with a
/// bed range and no explicit cool or hot plate temperature, applied to an
/// empty profile and read back, give the same range: the minimum is read from
/// the cool plate temperature and the maximum from the hot plate
/// temperature, so a range whose minimum is not above its maximum stays so.
pub proof fn law_bed_range_round_trip(sp: FilamentSpecs, back: FilamentSpecs)
    requires
        applicable(sp),
        sp.cool_plate_temp is None,
        sp.hot_plate_temp is None,
        sp.bed_temp_min is Some,
        sp.bed_temp_max is Some,
        specs_of_profile(applied(Seq::empty(), sp), back),
    ensures
        back.bed_temp_min == sp.bed_temp_min,
        back.bed_temp_max == sp.bed_temp_max,
        sp.bed_temp_min->0 <= sp.bed_temp_max->0 ==> back.bed_temp_min->0 <= back.bed_temp_max->0,
        back.cool_plate_temp == sp.bed_temp_min,
        back.hot_plate_temp == sp.bed_temp_max,
{
    let es = Seq::<(Seq<char>, ValueView)>::empty();
    assert(keys_distinct(es));
    law_apply_then_extract(es, sp, back);
    lemma_read_back_hot_plate_temp(es, sp);
    lemma_read_back_cool_plate_temp(es, sp);
}

// ---------------------------------------------------------------------------
// Random ids
// ---------------------------------------------------------------------------

/// `rand::random::<u8>()`: a random byte; nothing is promised of it.
#[verifier::external_body]
fn random_byte() -> (r: u8) {
    rand::random::<u8>()
}

fn random_bytes(n: usize) -> (r: Vec<u8>)
    ensures
        r@.len() == n,
{
    let mut r: Vec<u8> = Vec::new();
    let mut i: usize = 0;
    while i < n
        invariant
            i <= n,
            r@.len() == i,
        decreases n - i,
    {
        r.push(random_byte());
        i = i + 1;
    }
    r
}

/// The `k` lowest lower-case hexadecimal digits of `n`, the most
/// significant first (`{:0kx}` for `n` under `16^k`).
pub open spec fn hex_digits(n: nat, k: nat) -> Seq<char>
    decreases k,
{
    if k == 0 {
        Seq::empty()
    } else {
        hex_digits(n / 16, (k - 1) as nat).push(crate::commands::profile::lower_hex_digit(n % 16))
    }
}

fn push_hex_digits(out: &mut Vec<char>, n: u64, k: usize)
    ensures
        final(out)@ == old(out)@ + hex_digits(n as nat, k as nat),
    decreases k,
{
    if k > 0 {
        push_hex_digits(out, n / 16, k - 1);
        let d: u8 = (n % 16) as u8;
        let c = if d < 10 {
            (d + 48) as char
        } else {
            (d + 87) as char
        };
        out.push(c);
    }
}

/// A filament id from four bytes: `P` and seven hex digits of the bytes
/// read big-endian, with the top four bits cleared.
pub open spec fn filament_id_from(b: Seq<u8>) -> Seq<char> {
    "P"@ + hex_digits(
        ((b[0] % 16) as nat) * 0x1000000 + (b[1] as nat) * 0x10000 + (b[2] as nat) * 0x100 + (b[3] as nat),
        7,
    )
}

/// The filament id made from four bytes (see `filament_id_from`).
pub fn filament_id_of(bytes: &Vec<u8>) -> (r: String)
    requires
        bytes@.len() == 4,
    ensures
        r@ == filament_id_from(bytes@),
{
    let n: u64 = ((bytes[0] % 16) as u64) * 0x1000000 + (bytes[1] as u64) * 0x10000 + (bytes[2] as u64)
        * 0x100 + (bytes[3] as u64);
    let mut out = chars_of("P");
    push_hex_digits(&mut out, n, 7);
    string_of(&out)
}

/// A random user filament id: `P` and seven hex digits.
pub fn generate_filament_id() -> (r: String)
    ensures
        exists|b: Seq<u8>| b.len() == 4 && r@ == filament_id_from(b),
{
    let b = random_bytes(4);
    filament_id_of(&b)
}

/// The hex digits of some bytes, two for each.
pub open spec fn bytes_hex(b: Seq<u8>) -> Seq<char>
    decreases b.len(),
{
    if b.len() == 0 {
        Seq::empty()
    } else {
        bytes_hex(b.drop_last()) + hex_digits(b.last() as nat, 2)
    }
}

/// A setting id from seven bytes: `PFUS` and the bytes in hex.
pub open spec fn setting_id_from(b: Seq<u8>) -> Seq<char> {
    "PFUS"@ + bytes_hex(b)
}

/// The setting id made from seven bytes (see `setting_id_from`).
pub fn setting_id_of(bytes: &Vec<u8>) -> (r: String)
    requires
        bytes@.len() == 7,
    ensures
        r@ == setting_id_from(bytes@),
{
    let mut out = chars_of("PFUS");
    let ghost start = out@;
    let mut i: usize = 0;
    while i < bytes.len()
        invariant
            i <= bytes.len(),
            start == "PFUS"@,
            out@ == start + bytes_hex(bytes@.take(i as int)),
        decreases bytes.len() - i,
    {
        proof {
            assert(bytes@.take(i + 1).drop_last() =~= bytes@.take(i as int));
            assert(bytes@.take(i + 1).last() == bytes@[i as int]);
        }
        push_hex_digits(&mut out, bytes[i] as u64, 2);
        proof {
            assert(out@ =~= start + bytes_hex(bytes@.take(i + 1)));
        }
        i = i + 1;
    }
    proof {
        assert(bytes@.take(bytes.len() as int) =~= bytes@);
    }
    string_of(&out)
}

/// A random user setting id: `PFUS` and fourteen hex digits.
pub fn generate_setting_id() -> (r: String)
    ensures
        exists|b: Seq<u8>| b.len() == 7 && r@ == setting_id_from(b),
{
    let b = random_bytes(7);
    setting_id_of(&b)
}

} // verus!
