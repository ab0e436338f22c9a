use bambumate::scraper::types::{FilamentSpecs, MaterialType};
use bambumate::scraper::validation::{constraints_for_material, validate_specs};

/// Thousandths of a unit, the library's representation of fractional quantities.
fn milli(x: f64) -> i64 {
    (x * 1000.0).round() as i64
}

fn make_pla_specs() -> FilamentSpecs {
    FilamentSpecs {
        name: "Test PLA".to_string(),
        brand: "TestBrand".to_string(),
        material: "PLA".to_string(),
        nozzle_temp_min: Some(190),
        nozzle_temp_max: Some(210),
        bed_temp_min: Some(25),
        bed_temp_max: Some(60),
        nozzle_temperature: Some(200),
        nozzle_temperature_initial_layer: Some(205),
        hot_plate_temp: Some(55),
        hot_plate_temp_initial_layer: Some(55),
        cool_plate_temp: Some(50),
        cool_plate_temp_initial_layer: Some(50),
        eng_plate_temp: Some(55),
        eng_plate_temp_initial_layer: Some(55),
        textured_plate_temp: Some(55),
        textured_plate_temp_initial_layer: Some(55),
        max_volumetric_speed: Some(milli(21.0)),
        filament_flow_ratio: Some(milli(0.98)),
        pressure_advance: Some(milli(0.04)),
        fan_min_speed: Some(100),
        fan_max_speed: Some(100),
        overhang_fan_speed: Some(100),
        close_fan_the_first_x_layers: Some(1),
        additional_cooling_fan_speed: Some(80),
        fan_speed_percent: Some(100),
        slow_down_layer_time: Some(8),
        slow_down_min_speed: Some(20),
        retraction_distance_mm: Some(milli(0.8)),
        retraction_speed_mm_s: Some(30),
        deretraction_speed_mm_s: None,
        bridge_speed: Some(25),
        density_g_cm3: Some(milli(1.24)),
        diameter_mm: Some(milli(1.75)),
        temperature_vitrification: Some(55),
        filament_cost: Some(milli(24.99)),
        max_speed_mm_s: Some(200),
        source_url: "https://example.com".to_string(),
        extraction_confidence: milli(0.9),
    }
}

fn blank_specs(name: &str, material: &str, confidence: f64) -> FilamentSpecs {
    let mut s = FilamentSpecs::default();
    s.name = name.to_string();
    s.brand = "TestBrand".to_string();
    s.material = material.to_string();
    s.source_url = "https://example.com".to_string();
    s.extraction_confidence = milli(confidence);
    s
}

#[test]
fn test_pla_valid_specs_no_warnings() {
    let specs = make_pla_specs();
    let warnings = validate_specs(&specs);
    assert!(warnings.is_empty(), "Expected no warnings, got: {:?}", warnings);
}

#[test]
fn test_pla_nozzle_temp_too_high() {
    let mut specs = make_pla_specs();
    specs.nozzle_temp_max = Some(350);
    let warnings = validate_specs(&specs);
    assert_eq!(warnings.len(), 1);
    assert_eq!(warnings[0].field, "nozzle_temp_max");
    assert!(warnings[0].message.contains("350"));
    assert!(warnings[0].message.contains("PLA"));
}

#[test]
fn test_pla_nozzle_temp_too_low() {
    let mut specs = make_pla_specs();
    specs.nozzle_temp_min = Some(100);
    let warnings = validate_specs(&specs);
    assert_eq!(warnings.len(), 1);
    assert_eq!(warnings[0].field, "nozzle_temp_min");
}

#[test]
fn test_bed_temp_out_of_range() {
    let mut specs = make_pla_specs();
    specs.bed_temp_max = Some(120);
    let warnings = validate_specs(&specs);
    assert_eq!(warnings.len(), 1);
    assert_eq!(warnings[0].field, "bed_temp_max");
}

#[test]
fn test_retraction_distance_out_of_range() {
    let mut specs = make_pla_specs();
    specs.retraction_distance_mm = Some(milli(20.0));
    let warnings = validate_specs(&specs);
    assert_eq!(warnings.len(), 1);
    assert_eq!(warnings[0].field, "retraction_distance_mm");
}

#[test]
fn test_retraction_speed_out_of_range() {
    let mut specs = make_pla_specs();
    specs.retraction_speed_mm_s = Some(150);
    let warnings = validate_specs(&specs);
    assert_eq!(warnings.len(), 1);
    assert_eq!(warnings[0].field, "retraction_speed_mm_s");
}

#[test]
fn test_fan_speed_out_of_range() {
    let mut specs = make_pla_specs();
    specs.fan_speed_percent = Some(150);
    let warnings = validate_specs(&specs);
    assert_eq!(warnings.len(), 1);
    assert_eq!(warnings[0].field, "fan_speed_percent");
}

#[test]
fn test_diameter_out_of_range() {
    let mut specs = make_pla_specs();
    specs.diameter_mm = Some(milli(5.0));
    let warnings = validate_specs(&specs);
    assert_eq!(warnings.len(), 1);
    assert_eq!(warnings[0].field, "diameter_mm");
}

#[test]
fn test_multiple_warnings() {
    let mut specs = make_pla_specs();
    specs.nozzle_temp_max = Some(350);
    specs.bed_temp_max = Some(120);
    specs.retraction_distance_mm = Some(milli(20.0));
    let warnings = validate_specs(&specs);
    assert_eq!(warnings.len(), 3);
}

#[test]
fn test_null_fields_no_warnings() {
    let specs = blank_specs("Test PLA", "PLA", 0.0);
    let warnings = validate_specs(&specs);
    assert!(warnings.is_empty());
}

#[test]
fn test_other_material_permissive_ranges() {
    let mut specs = blank_specs("Test Wood Fill", "Wood Fill", 0.5);
    specs.nozzle_temp_min = Some(170);
    specs.nozzle_temp_max = Some(380);
    specs.bed_temp_min = Some(0);
    specs.bed_temp_max = Some(100);
    specs.fan_speed_percent = Some(100);
    specs.retraction_distance_mm = Some(milli(5.0));
    specs.retraction_speed_mm_s = Some(30);
    specs.density_g_cm3 = Some(milli(1.1));
    specs.diameter_mm = Some(milli(1.75));
    specs.max_speed_mm_s = Some(100);
    let warnings = validate_specs(&specs);
    assert!(
        warnings.is_empty(),
        "Other material should use permissive ranges, got: {:?}",
        warnings
    );
}

#[test]
fn test_petg_constraints() {
    let constraints = constraints_for_material(&MaterialType::PETG);
    assert_eq!(constraints.nozzle_temp_min, 210);
    assert_eq!(constraints.nozzle_temp_max, 260);
    assert_eq!(constraints.bed_temp_min, 40);
    assert_eq!(constraints.bed_temp_max, 100);
}

#[test]
fn test_abs_constraints() {
    let constraints = constraints_for_material(&MaterialType::ABS);
    assert_eq!(constraints.nozzle_temp_min, 210);
    assert_eq!(constraints.nozzle_temp_max, 270);
    assert_eq!(constraints.bed_temp_min, 70);
    assert_eq!(constraints.bed_temp_max, 120);
}

#[test]
fn test_tpu_constraints() {
    let constraints = constraints_for_material(&MaterialType::TPU);
    assert_eq!(constraints.nozzle_temp_min, 200);
    assert_eq!(constraints.nozzle_temp_max, 250);
}

#[test]
fn test_nylon_constraints() {
    let constraints = constraints_for_material(&MaterialType::Nylon);
    assert_eq!(constraints.nozzle_temp_min, 230);
    assert_eq!(constraints.nozzle_temp_max, 300);
}

#[test]
fn test_pc_constraints() {
    let constraints = constraints_for_material(&MaterialType::PC);
    assert_eq!(constraints.nozzle_temp_min, 250);
    assert_eq!(constraints.nozzle_temp_max, 320);
}

#[test]
fn validation_messages_are_exact() {
    let mut specs = make_pla_specs();
    specs.nozzle_temp_max = Some(350);
    specs.retraction_distance_mm = Some(milli(20.5));
    specs.diameter_mm = Some(milli(0.25));
    let w = validate_specs(&specs);
    assert_eq!(w.len(), 3);
    assert_eq!(w[0].message, "Nozzle temp max 350C out of range for PLA (180-235C)");
    assert_eq!(w[0].value, "350");
    assert_eq!(w[1].message, "Retraction distance 20.5mm out of range (0-15mm)");
    assert_eq!(w[1].value, "20.5");
    assert_eq!(w[2].message, "Diameter 0.25mm out of range (1.0-3.5mm)");
}

#[test]
fn material_classification_follows_keywords() {
    assert!(matches!(MaterialType::from_str("PETG"), MaterialType::PETG));
    assert!(matches!(MaterialType::from_str("silk pla"), MaterialType::PLA));
    assert!(matches!(MaterialType::from_str("Nylon CF"), MaterialType::Nylon));
    assert!(matches!(MaterialType::from_str("Wood Fill"), MaterialType::Other(ref s) if s == "Wood Fill"));
    let pc = constraints_for_material(&MaterialType::from_str("Wood Fill"));
    assert_eq!((pc.nozzle_temp_min, pc.nozzle_temp_max), (150, 400));
}
