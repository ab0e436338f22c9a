use bambumate::commands::profile::{
    check_install_allowed, compare_profile_entries, compute_profile_diffs, generation_warnings,
    key_to_category, key_to_label, matches_base_query, rank_base_matches, selected_base_path,
    sort_profile_infos, specs_summary, value_to_display, BaseProfileMatch, ProfileInfo,
};
use bambumate::profile::types::{ArrayItem, FilamentProfile, ProfileValue};
use bambumate::scraper::types::FilamentSpecs;

fn strs(v: &[&str]) -> Vec<String> {
    v.iter().map(|s| s.to_string()).collect()
}

#[test]
fn labels_from_keys() {
    assert_eq!(key_to_label("nozzle_temperature"), "Nozzle Temperature");
    assert_eq!(key_to_label("hot_plate_temp_initial_layer"), "Hot Plate Temp Initial Layer");
    assert_eq!(key_to_label("a__b"), "A  B");
    assert_eq!(key_to_label(""), "");
}

#[test]
fn categories_from_keys() {
    assert_eq!(key_to_category("nozzle_temperature"), "Temperature");
    assert_eq!(key_to_category("fan_max_speed"), "Speed & Flow");
    assert_eq!(key_to_category("overhang_fan"), "Cooling & Fan");
    assert_eq!(key_to_category("filament_retraction_length"), "Retraction");
    assert_eq!(key_to_category("filament_density"), "Physical Properties");
    assert_eq!(key_to_category("filament_vendor"), "Identity & Metadata");
    assert_eq!(key_to_category("something_else"), "Other");
}

#[test]
fn displays_of_values() {
    assert_eq!(value_to_display(None), "--");
    assert_eq!(value_to_display(Some(&ProfileValue::Null)), "--");
    assert_eq!(value_to_display(Some(&ProfileValue::Str("x".to_string()))), "x");
    assert_eq!(value_to_display(Some(&ProfileValue::Scalar("1.5".to_string()))), "1.5");
    assert_eq!(value_to_display(Some(&ProfileValue::Object("{}".to_string()))), "{...}");
    assert_eq!(value_to_display(Some(&ProfileValue::Array(vec![]))), "[]");
    assert_eq!(
        value_to_display(Some(&ProfileValue::Array(vec![
            ArrayItem::Str("220".to_string()),
            ArrayItem::Str("230".to_string())
        ]))),
        "220"
    );
    assert_eq!(
        value_to_display(Some(&ProfileValue::Array(vec![ArrayItem::Json("3".to_string())]))),
        "3"
    );
}

fn profile(entries: &[(&str, &str)]) -> FilamentProfile {
    let mut p = FilamentProfile::new();
    for (k, v) in entries {
        p.set_string_array(k, vec![v.to_string()]);
    }
    p
}

#[test]
fn diffs_skip_identity_and_sort_by_label() {
    let base = profile(&[("nozzle_temperature", "220"), ("fan_max_speed", "80"), ("name", "A")]);
    let mut generated = profile(&[
        ("nozzle_temperature", "210"),
        ("fan_max_speed", "80"),
        ("name", "B"),
        ("cool_plate_temp", "55"),
    ]);
    generated.set_string("filament_id", "X".to_string());
    let diffs = compute_profile_diffs(&base, &generated);
    assert_eq!(diffs.len(), 2);
    assert_eq!(diffs[0].key, "cool_plate_temp");
    assert_eq!(diffs[0].label, "Cool Plate Temp");
    assert_eq!(diffs[0].base_value, "--");
    assert_eq!(diffs[0].new_value, "55");
    assert_eq!(diffs[1].key, "nozzle_temperature");
    assert_eq!(diffs[1].base_value, "220");
    assert_eq!(diffs[1].new_value, "210");
}

#[test]
fn compare_groups_by_category() {
    let mut a = profile(&[("nozzle_temperature", "220"), ("fan_max_speed", "80")]);
    a.set_string("name", "Profile A".to_string());
    let b = profile(&[("nozzle_temperature", "230"), ("fan_max_speed", "80"), ("filament_density", "1.24")]);
    let r = compare_profile_entries(&a, &b, false);
    assert_eq!(r.profile_a_name, "Profile A");
    assert_eq!(r.profile_b_name, "<unnamed>");
    assert_eq!(r.total_fields, 4);
    assert_eq!(r.changed_fields, 3);
    let cats: Vec<&str> = r.categories.iter().map(|c| c.category.as_str()).collect();
    assert_eq!(cats, vec!["Identity & Metadata", "Physical Properties", "Temperature"]);
    assert_eq!(r.categories[2].diffs[0].base_value, "220");
    assert_eq!(r.categories[2].diffs[0].new_value, "230");

    let all = compare_profile_entries(&a, &b, true);
    assert_eq!(all.categories.len(), 4);
    assert_eq!(all.categories[3].category, "Temperature");
}

#[test]
fn summary_of_applied_specs() {
    let mut specs = FilamentSpecs::default();
    specs.nozzle_temp_min = Some(190);
    specs.nozzle_temp_max = Some(220);
    specs.bed_temp_max = Some(60);
    specs.fan_speed_percent = Some(80);
    specs.retraction_distance_mm = Some(800);
    specs.retraction_speed_mm_s = Some(40);
    let s = specs_summary(&specs);
    assert_eq!(s.nozzle_temp.as_deref(), Some("190-220C"));
    assert_eq!(s.bed_temp.as_deref(), Some("60C"));
    assert_eq!(s.fan_speed.as_deref(), Some("80%"));
    assert_eq!(s.retraction.as_deref(), Some("0.8mm @ 40mm/s"));

    specs.retraction_speed_mm_s = None;
    specs.nozzle_temp_max = None;
    let s = specs_summary(&specs);
    assert_eq!(s.retraction.as_deref(), Some("0.8mm"));
    assert_eq!(s.nozzle_temp, None);
}

#[test]
fn install_and_generation_decisions() {
    assert!(check_install_allowed(false, false).is_ok());
    assert!(check_install_allowed(true, true).is_ok());
    assert!(check_install_allowed(true, false).unwrap_err().contains("force=true"));
    assert_eq!(generation_warnings(false).len(), 0);
    assert!(generation_warnings(true)[0].starts_with("Bambu Studio is running"));
    assert_eq!(selected_base_path(&Some("  /a/b.json ".to_string())), Some("/a/b.json".to_string()));
    assert_eq!(selected_base_path(&Some("   ".to_string())), None);
    assert_eq!(selected_base_path(&None), None);
}

fn m(name: &str, path: &str, ft: Option<&str>) -> BaseProfileMatch {
    BaseProfileMatch { name: name.to_string(), path: path.to_string(), filament_type: ft.map(|s| s.to_string()) }
}

#[test]
fn base_profile_query_matching() {
    assert!(matches_base_query("Bambu PLA Basic", &Some("PLA".to_string()), "pla", &None));
    assert!(matches_base_query("Generic", &Some("PETG".to_string()), "petg", &None));
    assert!(!matches_base_query("Generic PLA", &Some("PLA".to_string()), "pla", &Some("petg".to_string())));
    assert!(!matches_base_query("Generic", &None, "abs", &None));
}

#[test]
fn base_matches_ranked() {
    let mut ms = vec![m("b", "/1", None), m("A", "/2", Some("PLA")), m("dup", "/1", None)];
    for i in 0..30 {
        ms.push(m(&format!("z{:02}", i), &format!("/z{}", i), None));
    }
    let r = rank_base_matches(ms);
    assert_eq!(r.len(), 20);
    assert_eq!(r[0].name, "A");
    assert_eq!(r[1].name, "b");
    assert_eq!(r[2].name, "z00");
    assert!(r.iter().all(|x| x.name != "dup"));
}

#[test]
fn profile_infos_sorted_case_insensitively() {
    let info = |n: &str| ProfileInfo {
        name: n.to_string(),
        filament_type: None,
        filament_id: None,
        path: format!("/{}", n),
        is_user_profile: true,
    };
    let sorted = sort_profile_infos(vec![info("beta"), info("Alpha"), info("alpha"), info("Gamma")]);
    let names: Vec<&str> = sorted.iter().map(|p| p.name.as_str()).collect();
    assert_eq!(names, vec!["Alpha", "alpha", "beta", "Gamma"]);
    let _ = strs(&[]);
}
