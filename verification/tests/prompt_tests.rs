use bambumate::scraper::prompts::{
    build_extraction_prompt, build_html_extraction_prompt, build_knowledge_prompt,
    filament_specs_schema_text,
};

fn schema() -> serde_json::Value {
    serde_json::from_str(filament_specs_schema_text().as_str()).expect("schema text is JSON")
}

fn required() -> Vec<String> {
    schema()["required"]
        .as_array()
        .unwrap()
        .iter()
        .map(|v| v.as_str().unwrap().to_string())
        .collect()
}

const NEW_FIELDS: [&str; 24] = [
    "nozzle_temperature",
    "nozzle_temperature_initial_layer",
    "hot_plate_temp",
    "hot_plate_temp_initial_layer",
    "cool_plate_temp",
    "cool_plate_temp_initial_layer",
    "eng_plate_temp",
    "eng_plate_temp_initial_layer",
    "textured_plate_temp",
    "textured_plate_temp_initial_layer",
    "max_volumetric_speed",
    "filament_flow_ratio",
    "pressure_advance",
    "fan_min_speed",
    "fan_max_speed",
    "overhang_fan_speed",
    "close_fan_the_first_x_layers",
    "additional_cooling_fan_speed",
    "slow_down_layer_time",
    "slow_down_min_speed",
    "deretraction_speed_mm_s",
    "bridge_speed",
    "temperature_vitrification",
    "filament_cost",
];

#[test]
fn test_json_schema_has_all_required_fields() {
    let required_strs = required();
    for f in [
        "name",
        "brand",
        "material",
        "nozzle_temp_min",
        "nozzle_temp_max",
        "bed_temp_min",
        "bed_temp_max",
        "max_speed_mm_s",
        "fan_speed_percent",
        "retraction_distance_mm",
        "retraction_speed_mm_s",
        "density_g_cm3",
        "confidence",
    ] {
        assert!(required_strs.iter().any(|r| r == f));
    }
    for f in NEW_FIELDS {
        assert!(required_strs.iter().any(|r| r == f));
    }
}

fn nullable_of(props: &serde_json::Value, field: &str, kind: &str) -> bool {
    let t = props[field]["type"].as_array().unwrap();
    t.contains(&serde_json::Value::String(kind.to_string()))
        && t.contains(&serde_json::Value::String("null".to_string()))
}

#[test]
fn test_json_schema_nullable_fields() {
    let s = schema();
    let props = &s["properties"];
    assert!(nullable_of(props, "nozzle_temp_min", "integer"));
    assert!(nullable_of(props, "retraction_distance_mm", "number"));
    assert_eq!(props["confidence"]["type"], "number");
    assert!(nullable_of(props, "nozzle_temperature", "integer"));
    assert!(nullable_of(props, "hot_plate_temp", "integer"));
    assert!(nullable_of(props, "fan_min_speed", "integer"));
    assert!(nullable_of(props, "temperature_vitrification", "integer"));
    assert!(nullable_of(props, "max_volumetric_speed", "number"));
    assert!(nullable_of(props, "filament_flow_ratio", "number"));
    assert!(nullable_of(props, "pressure_advance", "number"));
    assert!(nullable_of(props, "filament_cost", "number"));
}

#[test]
fn test_json_schema_string_fields() {
    let s = schema();
    let props = &s["properties"];
    assert_eq!(props["name"]["type"], "string");
    assert_eq!(props["brand"]["type"], "string");
    assert_eq!(props["material"]["type"], "string");
}

#[test]
fn test_json_schema_no_additional_properties() {
    assert_eq!(schema()["additionalProperties"], false);
}

#[test]
fn test_json_schema_is_valid_json() {
    let s = schema();
    let json_str = serde_json::to_string(&s).unwrap();
    let reparsed: serde_json::Value = serde_json::from_str(&json_str).unwrap();
    assert_eq!(s, reparsed);
}

#[test]
fn test_json_schema_new_fields_in_required() {
    let required_strs = required();
    for field in NEW_FIELDS {
        assert!(
            required_strs.iter().any(|r| r == field),
            "Field '{}' should be in the required array",
            field
        );
    }
}

#[test]
fn test_json_schema_all_properties_are_required() {
    let s = schema();
    let required_strs = required();
    for key in s["properties"].as_object().unwrap().keys() {
        assert!(
            required_strs.iter().any(|r| r == key),
            "Property '{}' is defined but not in the required array",
            key
        );
    }
}

#[test]
fn test_json_schema_new_fields_have_descriptions() {
    let s = schema();
    let props = s["properties"].as_object().unwrap();
    for field in NEW_FIELDS {
        assert!(props.contains_key(field), "Property '{}' should exist in schema properties", field);
        let desc = props[field]["description"].as_str();
        assert!(
            desc.is_some() && !desc.unwrap().is_empty(),
            "Property '{}' should have a non-empty description",
            field
        );
    }
}

#[test]
fn test_extraction_prompt_contains_filament_name() {
    let prompt = build_extraction_prompt("Polymaker PLA Pro", "some text content");
    assert!(prompt.contains("Polymaker PLA Pro"), "Prompt should contain filament name");
}

#[test]
fn test_extraction_prompt_contains_source_text() {
    let source = "Nozzle Temperature: 190-220C, Bed Temperature: 50-60C";
    let prompt = build_extraction_prompt("Test PLA", source);
    assert!(prompt.contains(source), "Prompt should contain source text");
}

#[test]
fn test_extraction_prompt_anti_hallucination_rules() {
    let prompt = build_extraction_prompt("Test PLA", "some text");
    assert!(prompt.contains("Do NOT guess"), "Prompt should contain anti-hallucination rule");
    assert!(
        prompt.contains("return null"),
        "Prompt should instruct to return null for missing values"
    );
    assert!(
        prompt.contains("NOT present in the text"),
        "Prompt should reference missing data handling"
    );
}

#[test]
fn test_extraction_prompt_confidence_guidelines() {
    let prompt = build_extraction_prompt("Test PLA", "some text");
    assert!(prompt.contains("confidence"), "Prompt should mention confidence scoring");
    assert!(prompt.contains("0.0"), "Prompt should mention 0.0 confidence for no data");
}

#[test]
fn html_prompt_truncates_long_pages() {
    let html = "a".repeat(60_000);
    let prompt = build_html_extraction_prompt("Test PLA", &html);
    assert!(prompt.contains("Test PLA"));
    assert!(!prompt.contains(&"a".repeat(50_001)));
    assert!(prompt.contains(&"a".repeat(50_000)));
}

#[test]
fn knowledge_prompt_names_the_filament() {
    let prompt = build_knowledge_prompt("eSUN PETG");
    assert!(prompt.contains("eSUN PETG"));
}

#[test]
fn html_prompt_cuts_at_a_character_boundary() {
    let head = "a".repeat(49_999);
    let html = format!("{}é{}", head, "b".repeat(10));
    let prompt = bambumate::scraper::prompts::build_html_extraction_prompt("X", &html);
    assert!(prompt.ends_with(&format!("\n{}", head)) || prompt.ends_with(&head));
    assert!(!prompt.contains('é'));
    let short = format!("{}é", "a".repeat(100));
    let prompt = bambumate::scraper::prompts::build_html_extraction_prompt("X", &short);
    assert!(prompt.ends_with(&short));
    let exact = format!("{}é", "a".repeat(49_998));
    let prompt = bambumate::scraper::prompts::build_html_extraction_prompt("X", &exact);
    assert!(prompt.ends_with(&exact));
}
