use bambumate::profile::inheritance::{generate_entries, resolve_inheritance};
use bambumate::profile::paths::{register_filament, registered_conf_text};
use bambumate::profile::registry::ProfileRegistry;
use bambumate::profile::types::{FilamentProfile, ProfileValue};
use bambumate::scraper::html_extractor::JsonValue;
use bambumate::scraper::types::FilamentSpecs;

fn filaments(v: &JsonValue) -> Vec<String> {
    match v {
        JsonValue::Object(ms) => match ms.iter().find(|(k, _)| k == "filaments") {
            Some((_, JsonValue::Array(a))) => a
                .iter()
                .map(|x| match x {
                    JsonValue::Str(s) => s.clone(),
                    _ => String::new(),
                })
                .collect(),
            _ => panic!("no filaments list"),
        },
        _ => panic!("not an object"),
    }
}

#[test]
fn registration_appends_creates_and_skips() {
    let v = register_filament(r#"{"filaments": ["A"], "x": 1}"#, "B").unwrap().unwrap();
    assert_eq!(filaments(&v), vec!["A", "B"]);
    let v = register_filament(r#"{"x": 1}"#, "B").unwrap().unwrap();
    assert_eq!(filaments(&v), vec!["B"]);
    assert!(register_filament(r#"{"filaments": ["A", "B"]}"#, "B").unwrap().is_none());
}

#[test]
fn registration_refusals() {
    assert_eq!(register_filament("[1]", "B").unwrap_err(), "BambuStudio.conf root is not a JSON object");
    assert_eq!(
        register_filament(r#"{"filaments": 3}"#, "B").unwrap_err(),
        "BambuStudio.conf 'filaments' section is not an array"
    );
    assert!(register_filament("{oops", "B").unwrap_err().starts_with("Failed to parse BambuStudio.conf as JSON: "));
}

#[test]
fn registered_conf_text_is_pretty_json_without_checksum() {
    let text = registered_conf_text("{\"filaments\":[\"A\"],\"n\":2.5}\n# MD5 checksum 0123\n", "B").unwrap().unwrap();
    assert_eq!(text, "{\n  \"filaments\": [\n    \"A\",\n    \"B\"\n  ],\n  \"n\": 2.5\n}");
    assert!(registered_conf_text("{\"filaments\":[\"B\"]}", "B").unwrap().is_none());
}

fn profile(fields: &[(&str, &str)]) -> FilamentProfile {
    let mut p = FilamentProfile::new();
    for (k, v) in fields {
        p.set_string(k, v.to_string());
    }
    p
}

fn text(p: &FilamentProfile, k: &str) -> Option<String> {
    match p.get(k) {
        Some(ProfileValue::Str(s)) => Some(s.clone()),
        _ => None,
    }
}

fn registry() -> ProfileRegistry {
    let mut r = ProfileRegistry::new();
    r.insert(profile(&[("name", "fdm_filament_common"), ("a", "1"), ("b", "1"), ("c", "1")]));
    r.insert(profile(&[("name", "fdm_filament_pla"), ("inherits", "fdm_filament_common"), ("b", "2")]));
    r.insert(profile(&[("name", "Generic PLA @base"), ("inherits", "fdm_filament_pla"), ("c", "3")]));
    r.insert(profile(&[("name", "Loop A"), ("inherits", "Loop B")]));
    r.insert(profile(&[("name", "Loop B"), ("inherits", "Loop A")]));
    r
}

#[test]
fn inheritance_chain_is_flattened_child_over_parent() {
    let reg = registry();
    let flat = resolve_inheritance(reg.get_by_name("Generic PLA @base").unwrap(), &reg).unwrap();
    assert_eq!(text(&flat, "a").as_deref(), Some("1"));
    assert_eq!(text(&flat, "b").as_deref(), Some("2"));
    assert_eq!(text(&flat, "c").as_deref(), Some("3"));
    assert_eq!(text(&flat, "name").as_deref(), Some("Generic PLA @base"));
    assert_eq!(flat.field_count(), 5);
}

#[test]
fn inheritance_refusals() {
    let reg = registry();
    let orphan = profile(&[("name", "x"), ("inherits", "nowhere")]);
    assert_eq!(resolve_inheritance(&orphan, &reg).unwrap_err(), "Parent profile 'nowhere' not found in registry");
    let looped = resolve_inheritance(reg.get_by_name("Loop A").unwrap(), &reg);
    assert_eq!(looped.unwrap_err(), "Inheritance chain is too deep (or circular)");
}

#[test]
fn generation_uses_the_flattened_base() {
    let reg = registry();
    let mut specs = FilamentSpecs::default();
    specs.brand = "Acme".to_string();
    specs.material = "PLA".to_string();
    specs.name = "Basic".to_string();
    let (p, filename) = generate_entries(&specs, &reg, "Generic PLA @base", None, "P1234567").unwrap();
    assert_eq!(filename, "Acme PLA Basic @Bambu Lab H2C 0.4 nozzle.json");
    assert_eq!(text(&p, "a").as_deref(), Some("1"));
    assert_eq!(text(&p, "inherits").as_deref(), Some(""));
    assert_eq!(text(&p, "filament_id").as_deref(), Some("P1234567"));
    assert!(generate_entries(&specs, &reg, "Missing", None, "P1")
        .unwrap_err()
        .starts_with("Base profile 'Missing' not found in registry."));
}

#[test]
fn registering_twice_finds_the_name() {
    let first = registered_conf_text("{\"x\": true}", "Acme PLA").unwrap().unwrap();
    assert!(registered_conf_text(&first, "Acme PLA").unwrap().is_none());
}
