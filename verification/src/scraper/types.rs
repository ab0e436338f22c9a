//! Filament specification data types.
//!
//! Quantities that the specification sheets give with a fractional part
//! (retraction length, flow ratio, density, diameter, cost, confidence...)
//! are held as integers counting thousandths of their unit, so that
//! `1.75 mm` is `1750` and a confidence of `0.85` is `850`.

use vstd::prelude::*;
use crate::text::{chars_of, contains_seq, contains_str, string_of};

verus! {

/// Filament material families known to the library.
#[derive(Debug, Clone)]
pub enum MaterialType {
    PLA,
    PETG,
    ABS,
    ASA,
    TPU,
    Nylon,
    PC,
    PVA,
    HIPS,
    /// Any other material, holding the name it was derived from.
    Other(String),
}

/// ASCII uppercase of one character.
pub open spec fn ascii_upper(c: char) -> char {
    if 'a' <= c && c <= 'z' {
        ((c as u32) - 32) as char
    } else {
        c
    }
}

/// ASCII uppercase of a character sequence.
pub open spec fn ascii_upper_seq(s: Seq<char>) -> Seq<char> {
    s.map_values(|c: char| ascii_upper(c))
}

/// ASCII uppercase of one character (exec).
pub fn to_ascii_upper(c: char) -> (r: char)
    ensures
        r == ascii_upper(c),
{
    if 'a' <= c && c <= 'z' {
        let n = ((c as u32) - 32) as u8;
        n as char
    } else {
        c
    }
}

/// ASCII uppercase of a character vector (exec).
pub fn ascii_upper_chars(v: &Vec<char>) -> (r: Vec<char>)
    ensures
        r@ == ascii_upper_seq(v@),
{
    let mut r: Vec<char> = Vec::new();
    let mut i: usize = 0;
    while i < v.len()
        invariant
            i <= v.len(),
            r@ == ascii_upper_seq(v@.take(i as int)),
        decreases v.len() - i,
    {
        let c = to_ascii_upper(v[i]);
        r.push(c);
        proof {
            assert(ascii_upper_seq(v@.take(i + 1)) =~= ascii_upper_seq(v@.take(i as int)).push(c));
        }
        i = i + 1;
    }
    proof {
        assert(v@.take(v.len() as int) == v@);
    }
    r
}

/// Index of the material family that a name denotes: the first of
/// PETG, PLA, ABS, ASA, TPU, NYLON/PA, PC, PVA, HIPS found in the
/// (ASCII-uppercased) name, 9 when none is found.
pub open spec fn material_tag(name: Seq<char>) -> nat {
    let u = ascii_upper_seq(name);
    if contains_seq(u, "PETG"@) {
        1
    } else if contains_seq(u, "PLA"@) {
        0
    } else if contains_seq(u, "ABS"@) {
        2
    } else if contains_seq(u, "ASA"@) {
        3
    } else if contains_seq(u, "TPU"@) {
        4
    } else if contains_seq(u, "NYLON"@) || contains_seq(u, "PA"@) {
        5
    } else if contains_seq(u, "PC"@) {
        6
    } else if contains_seq(u, "PVA"@) {
        7
    } else if contains_seq(u, "HIPS"@) {
        8
    } else {
        9
    }
}

impl MaterialType {
    /// Index of the family: PLA 0, PETG 1, ABS 2, ASA 3, TPU 4, Nylon 5,
    /// PC 6, PVA 7, HIPS 8, Other 9.
    pub open spec fn tag(&self) -> nat {
        match self {
            MaterialType::PLA => 0,
            MaterialType::PETG => 1,
            MaterialType::ABS => 2,
            MaterialType::ASA => 3,
            MaterialType::TPU => 4,
            MaterialType::Nylon => 5,
            MaterialType::PC => 6,
            MaterialType::PVA => 7,
            MaterialType::HIPS => 8,
            MaterialType::Other(_) => 9,
        }
    }

    /// Classify a material or filament name (case-insensitive keyword search).
    pub fn from_str(s: &str) -> (m: MaterialType)
        ensures
            m.tag() == material_tag(s@),
            m matches MaterialType::Other(o) ==> o@ == s@,
    {
        let v = chars_of(s);
        let u = ascii_upper_chars(&v);
        if contains_str(&u, "PETG") {
            MaterialType::PETG
        } else if contains_str(&u, "PLA") {
            MaterialType::PLA
        } else if contains_str(&u, "ABS") {
            MaterialType::ABS
        } else if contains_str(&u, "ASA") {
            MaterialType::ASA
        } else if contains_str(&u, "TPU") {
            MaterialType::TPU
        } else if contains_str(&u, "NYLON") || contains_str(&u, "PA") {
            MaterialType::Nylon
        } else if contains_str(&u, "PC") {
            MaterialType::PC
        } else if contains_str(&u, "PVA") {
            MaterialType::PVA
        } else if contains_str(&u, "HIPS") {
            MaterialType::HIPS
        } else {
            MaterialType::Other(string_of(&v))
        }
    }
}

/// Printing specifications of one filament, as scraped or generated.
#[derive(Debug, Clone)]
pub struct FilamentSpecs {
    pub name: String,
    pub brand: String,
    pub material: String,
    /// Nozzle temperature range, degrees Celsius.
    pub nozzle_temp_min: Option<u16>,
    pub nozzle_temp_max: Option<u16>,
    /// Bed temperature range, degrees Celsius.
    pub bed_temp_min: Option<u16>,
    pub bed_temp_max: Option<u16>,
    pub nozzle_temperature: Option<u16>,
    pub nozzle_temperature_initial_layer: Option<u16>,
    pub hot_plate_temp: Option<u16>,
    pub hot_plate_temp_initial_layer: Option<u16>,
    pub cool_plate_temp: Option<u16>,
    pub cool_plate_temp_initial_layer: Option<u16>,
    pub eng_plate_temp: Option<u16>,
    pub eng_plate_temp_initial_layer: Option<u16>,
    pub textured_plate_temp: Option<u16>,
    pub textured_plate_temp_initial_layer: Option<u16>,
    /// Maximum volumetric speed, thousandths of mm³/s.
    pub max_volumetric_speed: Option<i64>,
    /// Flow ratio, thousandths.
    pub filament_flow_ratio: Option<i64>,
    /// Pressure advance, thousandths.
    pub pressure_advance: Option<i64>,
    pub fan_min_speed: Option<u8>,
    pub fan_max_speed: Option<u8>,
    pub overhang_fan_speed: Option<u8>,
    pub close_fan_the_first_x_layers: Option<u8>,
    pub additional_cooling_fan_speed: Option<u8>,
    pub fan_speed_percent: Option<u8>,
    pub slow_down_layer_time: Option<u8>,
    pub slow_down_min_speed: Option<u16>,
    /// Retraction length, thousandths of a millimetre.
    pub retraction_distance_mm: Option<i64>,
    pub retraction_speed_mm_s: Option<u16>,
    pub deretraction_speed_mm_s: Option<u16>,
    pub bridge_speed: Option<u16>,
    /// Density, thousandths of g/cm³.
    pub density_g_cm3: Option<i64>,
    /// Diameter, thousandths of a millimetre.
    pub diameter_mm: Option<i64>,
    pub temperature_vitrification: Option<u16>,
    /// Cost per kilogram, thousandths of a currency unit.
    pub filament_cost: Option<i64>,
    pub max_speed_mm_s: Option<u16>,
    pub source_url: String,
    /// Confidence in the data, thousandths (1000 is certain).
    pub extraction_confidence: i64,
}

impl FilamentSpecs {
    /// Specs with the given name and nothing else known.
    pub open spec fn is_blank_named(&self, name: Seq<char>) -> bool {
        &&& self.name@ == name
        &&& self.brand@.len() == 0
        &&& self.material@.len() == 0
        &&& self.nozzle_temp_min is None
        &&& self.nozzle_temp_max is None
        &&& self.bed_temp_min is None
        &&& self.bed_temp_max is None
        &&& self.nozzle_temperature is None
        &&& self.nozzle_temperature_initial_layer is None
        &&& self.hot_plate_temp is None
        &&& self.hot_plate_temp_initial_layer is None
        &&& self.cool_plate_temp is None
        &&& self.cool_plate_temp_initial_layer is None
        &&& self.eng_plate_temp is None
        &&& self.eng_plate_temp_initial_layer is None
        &&& self.textured_plate_temp is None
        &&& self.textured_plate_temp_initial_layer is None
        &&& self.max_volumetric_speed is None
        &&& self.filament_flow_ratio is None
        &&& self.pressure_advance is None
        &&& self.fan_min_speed is None
        &&& self.fan_max_speed is None
        &&& self.overhang_fan_speed is None
        &&& self.close_fan_the_first_x_layers is None
        &&& self.additional_cooling_fan_speed is None
        &&& self.fan_speed_percent is None
        &&& self.slow_down_layer_time is None
        &&& self.slow_down_min_speed is None
        &&& self.retraction_distance_mm is None
        &&& self.retraction_speed_mm_s is None
        &&& self.deretraction_speed_mm_s is None
        &&& self.bridge_speed is None
        &&& self.density_g_cm3 is None
        &&& self.diameter_mm is None
        &&& self.temperature_vitrification is None
        &&& self.filament_cost is None
        &&& self.max_speed_mm_s is None
        &&& self.source_url@.len() == 0
        &&& self.extraction_confidence == 0
    }

    /// Two specs agree field by field (strings by their text).
    pub open spec fn same_as(self, b: FilamentSpecs) -> bool {
        let a = self;
        &&& a.name@ == b.name@
        &&& a.brand@ == b.brand@
        &&& a.material@ == b.material@
        &&& a.nozzle_temp_min == b.nozzle_temp_min
        &&& a.nozzle_temp_max == b.nozzle_temp_max
        &&& a.bed_temp_min == b.bed_temp_min
        &&& a.bed_temp_max == b.bed_temp_max
        &&& a.nozzle_temperature == b.nozzle_temperature
        &&& a.nozzle_temperature_initial_layer == b.nozzle_temperature_initial_layer
        &&& a.hot_plate_temp == b.hot_plate_temp
        &&& a.hot_plate_temp_initial_layer == b.hot_plate_temp_initial_layer
        &&& a.cool_plate_temp == b.cool_plate_temp
        &&& a.cool_plate_temp_initial_layer == b.cool_plate_temp_initial_layer
        &&& a.eng_plate_temp == b.eng_plate_temp
        &&& a.eng_plate_temp_initial_layer == b.eng_plate_temp_initial_layer
        &&& a.textured_plate_temp == b.textured_plate_temp
        &&& a.textured_plate_temp_initial_layer == b.textured_plate_temp_initial_layer
        &&& a.max_volumetric_speed == b.max_volumetric_speed
        &&& a.filament_flow_ratio == b.filament_flow_ratio
        &&& a.pressure_advance == b.pressure_advance
        &&& a.fan_min_speed == b.fan_min_speed
        &&& a.fan_max_speed == b.fan_max_speed
        &&& a.overhang_fan_speed == b.overhang_fan_speed
        &&& a.close_fan_the_first_x_layers == b.close_fan_the_first_x_layers
        &&& a.additional_cooling_fan_speed == b.additional_cooling_fan_speed
        &&& a.fan_speed_percent == b.fan_speed_percent
        &&& a.slow_down_layer_time == b.slow_down_layer_time
        &&& a.slow_down_min_speed == b.slow_down_min_speed
        &&& a.retraction_distance_mm == b.retraction_distance_mm
        &&& a.retraction_speed_mm_s == b.retraction_speed_mm_s
        &&& a.deretraction_speed_mm_s == b.deretraction_speed_mm_s
        &&& a.bridge_speed == b.bridge_speed
        &&& a.density_g_cm3 == b.density_g_cm3
        &&& a.diameter_mm == b.diameter_mm
        &&& a.temperature_vitrification == b.temperature_vitrification
        &&& a.filament_cost == b.filament_cost
        &&& a.max_speed_mm_s == b.max_speed_mm_s
        &&& a.source_url@ == b.source_url@
        &&& a.extraction_confidence == b.extraction_confidence
    }

    /// Two specs agree field by field, the source URL aside.
    pub open spec fn same_as_except_source(self, b: FilamentSpecs) -> bool {
        let a = self;
        &&& a.name@ == b.name@
        &&& a.brand@ == b.brand@
        &&& a.material@ == b.material@
        &&& a.nozzle_temp_min == b.nozzle_temp_min
        &&& a.nozzle_temp_max == b.nozzle_temp_max
        &&& a.bed_temp_min == b.bed_temp_min
        &&& a.bed_temp_max == b.bed_temp_max
        &&& a.nozzle_temperature == b.nozzle_temperature
        &&& a.nozzle_temperature_initial_layer == b.nozzle_temperature_initial_layer
        &&& a.hot_plate_temp == b.hot_plate_temp
        &&& a.hot_plate_temp_initial_layer == b.hot_plate_temp_initial_layer
        &&& a.cool_plate_temp == b.cool_plate_temp
        &&& a.cool_plate_temp_initial_layer == b.cool_plate_temp_initial_layer
        &&& a.eng_plate_temp == b.eng_plate_temp
        &&& a.eng_plate_temp_initial_layer == b.eng_plate_temp_initial_layer
        &&& a.textured_plate_temp == b.textured_plate_temp
        &&& a.textured_plate_temp_initial_layer == b.textured_plate_temp_initial_layer
        &&& a.max_volumetric_speed == b.max_volumetric_speed
        &&& a.filament_flow_ratio == b.filament_flow_ratio
        &&& a.pressure_advance == b.pressure_advance
        &&& a.fan_min_speed == b.fan_min_speed
        &&& a.fan_max_speed == b.fan_max_speed
        &&& a.overhang_fan_speed == b.overhang_fan_speed
        &&& a.close_fan_the_first_x_layers == b.close_fan_the_first_x_layers
        &&& a.additional_cooling_fan_speed == b.additional_cooling_fan_speed
        &&& a.fan_speed_percent == b.fan_speed_percent
        &&& a.slow_down_layer_time == b.slow_down_layer_time
        &&& a.slow_down_min_speed == b.slow_down_min_speed
        &&& a.retraction_distance_mm == b.retraction_distance_mm
        &&& a.retraction_speed_mm_s == b.retraction_speed_mm_s
        &&& a.deretraction_speed_mm_s == b.deretraction_speed_mm_s
        &&& a.bridge_speed == b.bridge_speed
        &&& a.density_g_cm3 == b.density_g_cm3
        &&& a.diameter_mm == b.diameter_mm
        &&& a.temperature_vitrification == b.temperature_vitrification
        &&& a.filament_cost == b.filament_cost
        &&& a.max_speed_mm_s == b.max_speed_mm_s
        &&& a.extraction_confidence == b.extraction_confidence
    }

    /// A field-by-field copy.
    pub fn copy(&self) -> (r: FilamentSpecs)
        ensures
            r.same_as(*self),
    {
        FilamentSpecs {
            name: self.name.clone(),
            brand: self.brand.clone(),
            material: self.material.clone(),
            nozzle_temp_min: self.nozzle_temp_min,
            nozzle_temp_max: self.nozzle_temp_max,
            bed_temp_min: self.bed_temp_min,
            bed_temp_max: self.bed_temp_max,
            nozzle_temperature: self.nozzle_temperature,
            nozzle_temperature_initial_layer: self.nozzle_temperature_initial_layer,
            hot_plate_temp: self.hot_plate_temp,
            hot_plate_temp_initial_layer: self.hot_plate_temp_initial_layer,
            cool_plate_temp: self.cool_plate_temp,
            cool_plate_temp_initial_layer: self.cool_plate_temp_initial_layer,
            eng_plate_temp: self.eng_plate_temp,
            eng_plate_temp_initial_layer: self.eng_plate_temp_initial_layer,
            textured_plate_temp: self.textured_plate_temp,
            textured_plate_temp_initial_layer: self.textured_plate_temp_initial_layer,
            max_volumetric_speed: self.max_volumetric_speed,
            filament_flow_ratio: self.filament_flow_ratio,
            pressure_advance: self.pressure_advance,
            fan_min_speed: self.fan_min_speed,
            fan_max_speed: self.fan_max_speed,
            overhang_fan_speed: self.overhang_fan_speed,
            close_fan_the_first_x_layers: self.close_fan_the_first_x_layers,
            additional_cooling_fan_speed: self.additional_cooling_fan_speed,
            fan_speed_percent: self.fan_speed_percent,
            slow_down_layer_time: self.slow_down_layer_time,
            slow_down_min_speed: self.slow_down_min_speed,
            retraction_distance_mm: self.retraction_distance_mm,
            retraction_speed_mm_s: self.retraction_speed_mm_s,
            deretraction_speed_mm_s: self.deretraction_speed_mm_s,
            bridge_speed: self.bridge_speed,
            density_g_cm3: self.density_g_cm3,
            diameter_mm: self.diameter_mm,
            temperature_vitrification: self.temperature_vitrification,
            filament_cost: self.filament_cost,
            max_speed_mm_s: self.max_speed_mm_s,
            source_url: self.source_url.clone(),
            extraction_confidence: self.extraction_confidence,
        }
    }

    /// Specs holding only a name.
    pub fn named(name: String) -> (s: FilamentSpecs)
        ensures
            s.is_blank_named(name@),
    {
        FilamentSpecs {
            name,
            brand: String::new(),
            material: String::new(),
            nozzle_temp_min: None,
            nozzle_temp_max: None,
            bed_temp_min: None,
            bed_temp_max: None,
            nozzle_temperature: None,
            nozzle_temperature_initial_layer: None,
            hot_plate_temp: None,
            hot_plate_temp_initial_layer: None,
            cool_plate_temp: None,
            cool_plate_temp_initial_layer: None,
            eng_plate_temp: None,
            eng_plate_temp_initial_layer: None,
            textured_plate_temp: None,
            textured_plate_temp_initial_layer: None,
            max_volumetric_speed: None,
            filament_flow_ratio: None,
            pressure_advance: None,
            fan_min_speed: None,
            fan_max_speed: None,
            overhang_fan_speed: None,
            close_fan_the_first_x_layers: None,
            additional_cooling_fan_speed: None,
            fan_speed_percent: None,
            slow_down_layer_time: None,
            slow_down_min_speed: None,
            retraction_distance_mm: None,
            retraction_speed_mm_s: None,
            deretraction_speed_mm_s: None,
            bridge_speed: None,
            density_g_cm3: None,
            diameter_mm: None,
            temperature_vitrification: None,
            filament_cost: None,
            max_speed_mm_s: None,
            source_url: String::new(),
            extraction_confidence: 0,
        }
    }
}

impl Default for FilamentSpecs {
    fn default() -> (s: FilamentSpecs)
        ensures
            s.is_blank_named(Seq::empty()),
    {
        FilamentSpecs::named(String::new())
    }
}

/// A value of the specs that lies outside the physical range of its material.
#[derive(Debug, Clone)]
pub struct ValidationWarning {
    pub field: String,
    pub message: String,
    pub value: String,
}

impl View for ValidationWarning {
    type V = (Seq<char>, Seq<char>, Seq<char>);

    open spec fn view(&self) -> (Seq<char>, Seq<char>, Seq<char>) {
        (self.field@, self.message@, self.value@)
    }
}

} // verus!
