use bambumate::profile::generator::{filament_id_of, generate_filament_id, generate_setting_id, setting_id_of};
use bambumate::profile::generator::{
    apply_specs_to_profile, base_profile_name, extract_specs_from_profile, fill_generated_profile,
};
use bambumate::profile::types::FilamentProfile;
use bambumate::scraper::types::{FilamentSpecs, MaterialType};

fn specs() -> FilamentSpecs {
    let mut s = FilamentSpecs::default();
    s.name = "PolyLite PLA".to_string();
    s.brand = "Polymaker".to_string();
    s.material = "PLA".to_string();
    s.nozzle_temp_min = Some(190);
    s.nozzle_temp_max = Some(220);
    s.nozzle_temperature = Some(210);
    s.bed_temp_min = Some(25);
    s.bed_temp_max = Some(60);
    s.hot_plate_temp = Some(55);
    s.max_volumetric_speed = Some(21_000);
    s.filament_flow_ratio = Some(980);
    s.pressure_advance = Some(40);
    s.fan_speed_percent = Some(100);
    s.overhang_fan_speed = Some(90);
    s.slow_down_layer_time = Some(8);
    s.retraction_distance_mm = Some(800);
    s.retraction_speed_mm_s = Some(30);
    s.density_g_cm3 = Some(1_240);
    s.temperature_vitrification = Some(55);
    s.filament_cost = Some(24_990);
    s
}

fn first(p: &FilamentProfile, key: &str) -> Option<String> {
    p.get_string_array(key).and_then(|a| a.first().cloned())
}

#[test]
fn applied_fields_are_dual_extruder_strings() {
    let mut p = FilamentProfile::new();
    apply_specs_to_profile(&mut p, &specs());
    assert_eq!(p.get_string_array("nozzle_temperature"), Some(vec!["210".to_string(), "210".to_string()]));
    assert_eq!(first(&p, "nozzle_temperature_initial_layer").as_deref(), Some("215"));
    assert_eq!(first(&p, "nozzle_temperature_range_high").as_deref(), Some("240"));
    assert_eq!(first(&p, "nozzle_temperature_range_low").as_deref(), Some("190"));
    assert_eq!(first(&p, "hot_plate_temp").as_deref(), Some("55"));
    assert_eq!(first(&p, "cool_plate_temp").as_deref(), Some("25"));
    assert_eq!(first(&p, "eng_plate_temp").as_deref(), Some("60"));
    assert_eq!(first(&p, "textured_plate_temp").as_deref(), Some("20"));
    assert_eq!(first(&p, "filament_max_volumetric_speed").as_deref(), Some("21"));
    assert_eq!(first(&p, "filament_flow_ratio").as_deref(), Some("0.98"));
    assert_eq!(first(&p, "pressure_advance").as_deref(), Some("0.040"));
    assert_eq!(first(&p, "fan_max_speed").as_deref(), Some("100"));
    assert_eq!(first(&p, "fan_min_speed").as_deref(), Some("60"));
    assert_eq!(first(&p, "filament_retraction_length").as_deref(), Some("0.8"));
    assert_eq!(first(&p, "filament_density").as_deref(), Some("1.24"));
    assert_eq!(first(&p, "filament_cost").as_deref(), Some("24.99"));
    assert_eq!(first(&p, "filament_type").as_deref(), Some("PLA"));
    assert_eq!(first(&p, "filament_vendor").as_deref(), Some("Polymaker"));
    assert_eq!(first(&p, "filament_deretraction_speed"), None);
}

#[test]
fn extracting_applied_specs_gives_them_back() {
    let s = specs();
    let mut p = FilamentProfile::new();
    apply_specs_to_profile(&mut p, &s);
    let back = extract_specs_from_profile(&p);
    assert_eq!(back.brand, s.brand);
    assert_eq!(back.material, s.material);
    assert_eq!(back.nozzle_temperature, s.nozzle_temperature);
    assert_eq!(back.nozzle_temp_min, s.nozzle_temp_min);
    assert_eq!(back.nozzle_temp_max, s.nozzle_temp_max);
    assert_eq!(back.hot_plate_temp, s.hot_plate_temp);
    assert_eq!(back.overhang_fan_speed, s.overhang_fan_speed);
    assert_eq!(back.slow_down_layer_time, s.slow_down_layer_time);
    assert_eq!(back.retraction_speed_mm_s, s.retraction_speed_mm_s);
    assert_eq!(back.temperature_vitrification, s.temperature_vitrification);
    assert_eq!(back.filament_flow_ratio, Some(980));
    assert_eq!(back.retraction_distance_mm, Some(800));
    assert_eq!(back.density_g_cm3, Some(1_240));
    assert_eq!(back.source_url, "profile");
    assert_eq!(back.extraction_confidence, 1000);
    assert_eq!(back.fan_speed_percent, None);
}

#[test]
fn base_profiles_by_material() {
    assert_eq!(base_profile_name(&MaterialType::PLA), "Generic PLA");
    assert_eq!(base_profile_name(&MaterialType::PETG), "Generic PETG");
}

#[test]
fn generated_profile_identity_and_file_name() {
    let mut p = FilamentProfile::new();
    p.set_string("name", "Generic PLA @base".to_string());
    p.set_string("inherits", "fdm_filament_pla".to_string());
    p.set_string_array("compatible_printers", vec!["Bambu Lab X1C".to_string()]);
    let (name, file) = fill_generated_profile(&mut p, &specs(), None, "P1234567".to_string());
    assert_eq!(name, "Polymaker PLA PolyLite PLA @Bambu Lab H2C 0.4 nozzle");
    assert_eq!(file, "Polymaker PLA PolyLite PLA @Bambu Lab H2C 0.4 nozzle.json");
    assert_eq!(p.name(), Some(name.as_str()));
    assert_eq!(p.get_string_array("compatible_printers"), Some(vec![]));
    assert_eq!(p.get_string_array("filament_settings_id"), Some(vec![name.clone(), name.clone()]));
    assert_eq!(first(&p, "nozzle_temperature").as_deref(), Some("210"));
    let (name2, _) = fill_generated_profile(&mut p, &specs(), Some("Bambu Lab X1 Carbon 0.4 nozzle"), "P7654321".to_string());
    assert_eq!(name2, "Polymaker PLA PolyLite PLA @Bambu Lab X1 Carbon 0.4 nozzle");
}

#[test]
fn ids_from_bytes() {
    assert_eq!(filament_id_of(&vec![0xAB, 0xCD, 0xEF, 0x01]), "Pbcdef01");
    assert_eq!(filament_id_of(&vec![0, 0, 0, 0]), "P0000000");
    assert_eq!(setting_id_of(&vec![0, 1, 2, 0xab, 0xff, 0x10, 9]), "PFUS000102abff1009");
}

#[test]
fn random_ids_have_their_shape() {
    let f = generate_filament_id();
    assert_eq!(f.len(), 8);
    assert!(f.starts_with('P'));
    assert!(f[1..].chars().all(|c| c.is_ascii_hexdigit() && !c.is_ascii_uppercase()));
    let s = generate_setting_id();
    assert_eq!(s.len(), 18);
    assert!(s.starts_with("PFUS"));
    assert!(s[4..].chars().all(|c| c.is_ascii_hexdigit() && !c.is_ascii_uppercase()));
}

#[test]
fn apply_to_empty_then_extract_reads_back() {
    let mut s = FilamentSpecs::default();
    s.brand = "Acme".to_string();
    s.material = "PETG".to_string();
    s.nozzle_temp_min = Some(230);
    s.nozzle_temp_max = Some(250);
    s.retraction_speed_mm_s = Some(40);
    let mut p = FilamentProfile::new();
    apply_specs_to_profile(&mut p, &s);
    let e = extract_specs_from_profile(&p);
    assert_eq!(e.material, s.material);
    assert_eq!(e.brand, s.brand);
    assert_eq!(e.nozzle_temp_min, Some(230));
    assert_eq!(e.nozzle_temp_max, Some(250));
    assert_eq!(e.nozzle_temperature, Some(250));
    assert_eq!(e.retraction_speed_mm_s, Some(40));
    assert_eq!(e.bridge_speed, None);
    assert_eq!(e.temperature_vitrification, None);
}
