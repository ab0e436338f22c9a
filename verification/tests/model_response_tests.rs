use bambumate::scraper::extraction::{
    map_response_to_specs, parse_model_response, read_model_response, strip_markdown_json,
};
use bambumate::scraper::html_extractor::JsonValue;

fn s(t: &str) -> JsonValue {
    JsonValue::Str(t.to_string())
}

fn n(t: &str) -> JsonValue {
    JsonValue::Number(t.parse::<u64>().ok(), t.to_string())
}

fn obj(members: Vec<(&str, JsonValue)>) -> JsonValue {
    JsonValue::Object(members.into_iter().map(|(k, v)| (k.to_string(), v)).collect())
}

#[test]
fn test_map_response_to_specs_full() {
    let json = obj(vec![
        ("name", s("Polymaker PLA Pro")),
        ("brand", s("Polymaker")),
        ("material", s("PLA")),
        ("nozzle_temp_min", n("190")),
        ("nozzle_temp_max", n("220")),
        ("bed_temp_min", n("25")),
        ("bed_temp_max", n("60")),
        ("nozzle_temperature", n("210")),
        ("nozzle_temperature_initial_layer", n("215")),
        ("hot_plate_temp", n("55")),
        ("hot_plate_temp_initial_layer", n("55")),
        ("cool_plate_temp", n("50")),
        ("cool_plate_temp_initial_layer", n("50")),
        ("eng_plate_temp", n("55")),
        ("eng_plate_temp_initial_layer", n("55")),
        ("textured_plate_temp", n("55")),
        ("textured_plate_temp_initial_layer", n("55")),
        ("max_volumetric_speed", n("21.0")),
        ("filament_flow_ratio", n("0.98")),
        ("pressure_advance", n("0.04")),
        ("fan_min_speed", n("100")),
        ("fan_max_speed", n("100")),
        ("overhang_fan_speed", n("100")),
        ("close_fan_the_first_x_layers", n("1")),
        ("additional_cooling_fan_speed", n("80")),
        ("fan_speed_percent", n("100")),
        ("slow_down_layer_time", n("8")),
        ("slow_down_min_speed", n("20")),
        ("max_speed_mm_s", n("200")),
        ("retraction_distance_mm", n("0.8")),
        ("retraction_speed_mm_s", n("30")),
        ("deretraction_speed_mm_s", n("30")),
        ("bridge_speed", n("25")),
        ("density_g_cm3", n("1.24")),
        ("temperature_vitrification", n("55")),
        ("filament_cost", n("24.99")),
        ("confidence", n("0.85")),
    ]);

    let specs = map_response_to_specs(&json, "Polymaker PLA Pro").unwrap();
    assert_eq!(specs.name, "Polymaker PLA Pro");
    assert_eq!(specs.brand, "Polymaker");
    assert_eq!(specs.material, "PLA");
    assert_eq!(specs.nozzle_temp_min, Some(190));
    assert_eq!(specs.nozzle_temp_max, Some(220));
    assert_eq!(specs.bed_temp_min, Some(25));
    assert_eq!(specs.bed_temp_max, Some(60));
    assert_eq!(specs.nozzle_temperature, Some(210));
    assert_eq!(specs.nozzle_temperature_initial_layer, Some(215));
    assert_eq!(specs.hot_plate_temp, Some(55));
    assert_eq!(specs.hot_plate_temp_initial_layer, Some(55));
    assert_eq!(specs.cool_plate_temp, Some(50));
    assert_eq!(specs.cool_plate_temp_initial_layer, Some(50));
    assert_eq!(specs.eng_plate_temp, Some(55));
    assert_eq!(specs.eng_plate_temp_initial_layer, Some(55));
    assert_eq!(specs.textured_plate_temp, Some(55));
    assert_eq!(specs.textured_plate_temp_initial_layer, Some(55));
    assert_eq!(specs.max_volumetric_speed, Some(21_000));
    assert_eq!(specs.filament_flow_ratio, Some(980));
    assert_eq!(specs.pressure_advance, Some(40));
    assert_eq!(specs.fan_min_speed, Some(100));
    assert_eq!(specs.fan_max_speed, Some(100));
    assert_eq!(specs.overhang_fan_speed, Some(100));
    assert_eq!(specs.close_fan_the_first_x_layers, Some(1));
    assert_eq!(specs.additional_cooling_fan_speed, Some(80));
    assert_eq!(specs.fan_speed_percent, Some(100));
    assert_eq!(specs.slow_down_layer_time, Some(8));
    assert_eq!(specs.slow_down_min_speed, Some(20));
    assert_eq!(specs.max_speed_mm_s, Some(200));
    assert_eq!(specs.retraction_distance_mm, Some(800));
    assert_eq!(specs.retraction_speed_mm_s, Some(30));
    assert_eq!(specs.deretraction_speed_mm_s, Some(30));
    assert_eq!(specs.bridge_speed, Some(25));
    assert_eq!(specs.density_g_cm3, Some(1240));
    assert_eq!(specs.temperature_vitrification, Some(55));
    assert_eq!(specs.filament_cost, Some(24_990));
    assert_eq!(specs.extraction_confidence, 850);
    assert_eq!(specs.source_url, "");
    assert_eq!(specs.diameter_mm, None);
}

#[test]
fn test_map_response_to_specs_with_nulls() {
    let mut members = vec![("name", s("Test PLA")), ("brand", s("TestBrand")), ("material", s("PLA"))];
    for k in [
        "nozzle_temp_min", "bed_temp_min", "bed_temp_max", "nozzle_temperature",
        "nozzle_temperature_initial_layer", "hot_plate_temp", "hot_plate_temp_initial_layer",
        "cool_plate_temp", "cool_plate_temp_initial_layer", "eng_plate_temp",
        "eng_plate_temp_initial_layer", "textured_plate_temp", "textured_plate_temp_initial_layer",
        "max_volumetric_speed", "filament_flow_ratio", "pressure_advance", "fan_min_speed",
        "fan_max_speed", "overhang_fan_speed", "close_fan_the_first_x_layers",
        "additional_cooling_fan_speed", "fan_speed_percent", "slow_down_layer_time",
        "slow_down_min_speed", "max_speed_mm_s", "retraction_distance_mm", "retraction_speed_mm_s",
        "deretraction_speed_mm_s", "bridge_speed", "density_g_cm3", "temperature_vitrification",
        "filament_cost",
    ] {
        members.push((k, JsonValue::Null));
    }
    members.push(("nozzle_temp_max", n("210")));
    members.push(("confidence", n("0.3")));
    let json = obj(members);

    let specs = map_response_to_specs(&json, "Test PLA").unwrap();
    assert_eq!(specs.nozzle_temp_min, None);
    assert_eq!(specs.nozzle_temp_max, Some(210));
    assert_eq!(specs.bed_temp_min, None);
    assert_eq!(specs.nozzle_temperature, None);
    assert_eq!(specs.hot_plate_temp, None);
    assert_eq!(specs.max_volumetric_speed, None);
    assert_eq!(specs.fan_min_speed, None);
    assert_eq!(specs.bridge_speed, None);
    assert_eq!(specs.temperature_vitrification, None);
    assert_eq!(specs.filament_cost, None);
    assert_eq!(specs.extraction_confidence, 300);
}

#[test]
fn test_map_response_to_specs_missing_brand() {
    let json = obj(vec![("name", s("Test PLA")), ("material", s("PLA")), ("confidence", n("0.5"))]);
    let result = map_response_to_specs(&json, "Test PLA");
    assert!(result.is_err());
    assert!(result.unwrap_err().contains("brand"));
}

#[test]
fn test_map_response_to_specs_missing_material() {
    let json = obj(vec![("name", s("Test PLA")), ("brand", s("TestBrand")), ("confidence", n("0.5"))]);
    let result = map_response_to_specs(&json, "Test PLA");
    assert!(result.is_err());
    assert!(result.unwrap_err().contains("material"));
}

#[test]
fn test_map_response_uses_filament_name_as_fallback() {
    let json = obj(vec![("brand", s("TestBrand")), ("material", s("PLA")), ("confidence", n("0.5"))]);
    let specs = map_response_to_specs(&json, "Fallback Name").unwrap();
    assert_eq!(specs.name, "Fallback Name");
}

#[test]
fn missing_confidence_defaults_to_zero_and_source_url_is_read() {
    let json = obj(vec![
        ("brand", s("B")),
        ("material", s("PETG")),
        ("source_url", s("https://example.com/p")),
        ("diameter_mm", n("1.75")),
    ]);
    let specs = map_response_to_specs(&json, "X").unwrap();
    assert_eq!(specs.extraction_confidence, 0);
    assert_eq!(specs.source_url, "https://example.com/p");
    assert_eq!(specs.diameter_mm, Some(1750));
}

#[test]
fn markdown_fences_are_stripped() {
    assert_eq!(strip_markdown_json("```json\n{\"a\": 1}\n```"), "{\"a\": 1}");
    assert_eq!(strip_markdown_json("```\n{\"a\": 1}\n```"), "{\"a\": 1}");
    assert_eq!(strip_markdown_json("  {\"a\": 1}  "), "{\"a\": 1}");
}

#[test]
fn model_answer_text_is_read_through_the_json_parser() {
    let text = "```json\n{\"brand\": \"Polymaker\", \"material\": \"PLA\", \"nozzle_temp_min\": 190, \"filament_flow_ratio\": 0.98, \"confidence\": 0.9}\n```";
    let specs = parse_model_response(text, "PolyLite PLA").unwrap();
    assert_eq!(specs.name, "PolyLite PLA");
    assert_eq!(specs.brand, "Polymaker");
    assert_eq!(specs.nozzle_temp_min, Some(190));
    assert_eq!(specs.filament_flow_ratio, Some(980));
    assert_eq!(specs.extraction_confidence, 900);
}

#[test]
fn model_answer_errors() {
    let e = parse_model_response("not json", "X").unwrap_err();
    assert!(e.starts_with("Failed to parse LLM response as JSON: "));
    assert!(e.ends_with(". Raw response (first 500 chars): not json"));
    let e = parse_model_response("{\"material\": \"PLA\"}", "X").unwrap_err();
    assert_eq!(e, "LLM response JSON does not match FilamentSpecs schema: Missing 'brand' field");
    let long = "x".repeat(600);
    let e = parse_model_response(&long, "X").unwrap_err();
    assert!(e.ends_with(&format!("{}...", "x".repeat(500))));
}

#[test]
fn model_answer_cut_inside_a_character_is_not_read() {
    let mut text = "x".repeat(499);
    text.push('é');
    text.push_str(&"y".repeat(10));
    assert!(read_model_response(&text, "X").is_none());
    assert!(read_model_response("{\"brand\": \"B\", \"material\": \"M\"}", "X").unwrap().is_ok());
}

#[test]
fn local_server_format_refusals() {
    assert!(bambumate::commands::models::format_refused(400, "unknown field response_format"));
    assert!(bambumate::commands::models::format_refused(400, "json_schema not supported"));
    assert!(!bambumate::commands::models::format_refused(400, "model not found"));
    assert!(!bambumate::commands::models::format_refused(500, "response_format"));
}
