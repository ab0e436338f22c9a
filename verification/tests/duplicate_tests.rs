use bambumate::commands::profile::{duplicate_id, prepare_duplicate, save_specs_into};
use bambumate::profile::types::{FilamentProfile, ProfileValue};
use bambumate::scraper::types::FilamentSpecs;

fn base() -> FilamentProfile {
    let mut p = FilamentProfile::new();
    p.set_string("name", "Generic PLA".to_string());
    p.set_string("filament_id", "GFL99".to_string());
    p.set_string_array("nozzle_temperature", vec!["220".to_string(), "220".to_string()]);
    p
}

#[test]
fn duplicate_ids_use_underscores_and_hex_time() {
    assert_eq!(duplicate_id("My PLA", 255), "BambuMate_My_PLA_ff");
    assert_eq!(duplicate_id("X", 0), "BambuMate_X_0");
    assert_eq!(duplicate_id("a b c", 0x18f3a2b4c5d), "BambuMate_a_b_c_18f3a2b4c5d");
    assert_eq!(duplicate_id("", 16), "BambuMate__10");
}

#[test]
fn duplicate_gets_new_name_and_ids() {
    let mut p = base();
    let id = prepare_duplicate(&mut p, "My Copy", 4096);
    assert_eq!(id, "BambuMate_My_Copy_1000");
    assert_eq!(p.name(), Some("My Copy"));
    match p.get("filament_id") {
        Some(ProfileValue::Str(s)) => assert_eq!(s, &id),
        other => panic!("unexpected filament_id {:?}", other),
    }
    assert_eq!(p.get_string_array("filament_settings_id"), Some(vec![id.clone()]));
    assert_eq!(
        p.get_string_array("nozzle_temperature"),
        Some(vec!["220".to_string(), "220".to_string()])
    );
    assert_eq!(p.field_count(), 4);
}

#[test]
fn saving_specs_applies_them_and_renames() {
    let mut specs = FilamentSpecs::default();
    specs.name = "Edited PLA".to_string();
    specs.nozzle_temperature = Some(205);
    let mut p = base();
    save_specs_into(&mut p, &specs);
    assert_eq!(p.name(), Some("Edited PLA"));
    assert_eq!(
        p.get_string_array("nozzle_temperature"),
        Some(vec!["205".to_string(), "205".to_string()])
    );
}

#[test]
fn saving_specs_without_name_keeps_name() {
    let mut specs = FilamentSpecs::default();
    specs.nozzle_temperature = Some(200);
    let mut p = base();
    save_specs_into(&mut p, &specs);
    assert_eq!(p.name(), Some("Generic PLA"));
    assert_eq!(
        p.get_string_array("nozzle_temperature"),
        Some(vec!["200".to_string(), "200".to_string()])
    );
}
