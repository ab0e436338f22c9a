use bambumate::analyzer::image_prep::{image_from_payload, image_payload};
use bambumate::analyzer::image_prep::check_image_size;
use bambumate::analyzer::prompts::{build_defect_analysis_prompt, defect_report_schema_text};
use bambumate::analyzer::vision::{parse_defect_report, read_defect_report};

fn defect_report_schema() -> serde_json::Value {
    serde_json::from_str(&defect_report_schema_text()).unwrap()
}

#[test]
fn test_defect_report_schema_structure() {
    let schema = defect_report_schema();
    assert_eq!(schema["type"], "object");
    assert!(schema["properties"]["defects"].is_object());
    assert!(schema["properties"]["overall_quality"].is_object());
    assert!(schema["properties"]["notes"].is_object());

    let required = schema["required"].as_array().unwrap();
    assert!(required.iter().any(|v| v == "defects"));
    assert!(required.iter().any(|v| v == "overall_quality"));
    assert!(required.iter().any(|v| v == "notes"));
}

#[test]
fn test_defect_report_schema_defect_types() {
    let schema = defect_report_schema();
    let defect_types = &schema["properties"]["defects"]["items"]["properties"]["defect_type"]["enum"];
    assert!(defect_types.is_array());

    let types: Vec<&str> = defect_types.as_array().unwrap().iter().map(|v| v.as_str().unwrap()).collect();

    assert!(types.contains(&"stringing"));
    assert!(types.contains(&"warping"));
    assert!(types.contains(&"layer_adhesion"));
    assert!(types.contains(&"elephants_foot"));
    assert!(types.contains(&"under_extrusion"));
    assert!(types.contains(&"over_extrusion"));
    assert!(types.contains(&"z_banding"));
}

#[test]
fn test_defect_report_schema_quality_levels() {
    let schema = defect_report_schema();
    let quality_levels = &schema["properties"]["overall_quality"]["enum"];
    assert!(quality_levels.is_array());

    let levels: Vec<&str> = quality_levels.as_array().unwrap().iter().map(|v| v.as_str().unwrap()).collect();

    assert!(levels.contains(&"excellent"));
    assert!(levels.contains(&"good"));
    assert!(levels.contains(&"acceptable"));
    assert!(levels.contains(&"poor"));
    assert!(levels.contains(&"failed"));
}

#[test]
fn test_build_prompt_includes_settings() {
    let settings = vec![
        ("nozzle_temperature".to_string(), 215_000),
        ("cool_plate_temp".to_string(), 55_000),
    ];
    let prompt = build_defect_analysis_prompt(&settings, "PLA");
    assert!(prompt.contains("215"));
    assert!(prompt.contains("55"));
    assert!(prompt.contains("PLA"));
}

#[test]
fn test_build_prompt_uses_defaults() {
    let settings = vec![];
    let prompt = build_defect_analysis_prompt(&settings, "PETG");
    assert!(prompt.contains("200")); // default nozzle temp
    assert!(prompt.contains("60")); // default bed temp
}

#[test]
fn test_build_prompt_uses_hot_plate_temp_fallback() {
    let settings = vec![("hot_plate_temp".to_string(), 80_000)];
    let prompt = build_defect_analysis_prompt(&settings, "ABS");
    assert!(prompt.contains("80"));
}

#[test]
fn test_build_prompt_includes_all_defect_types() {
    let settings = vec![];
    let prompt = build_defect_analysis_prompt(&settings, "PLA");

    assert!(prompt.contains("stringing"));
    assert!(prompt.contains("warping"));
    assert!(prompt.contains("layer_adhesion"));
    assert!(prompt.contains("elephants_foot"));
    assert!(prompt.contains("under_extrusion"));
    assert!(prompt.contains("over_extrusion"));
    assert!(prompt.contains("z_banding"));
}

#[test]
fn test_build_prompt_includes_severity_guidance() {
    let settings = vec![];
    let prompt = build_defect_analysis_prompt(&settings, "PLA");

    assert!(prompt.contains("0.3=minor"));
    assert!(prompt.contains("0.5=noticeable"));
    assert!(prompt.contains("0.7=significant"));
    assert!(prompt.contains("0.9=severe"));
}

#[test]
fn prompt_shows_decimal_settings() {
    let settings = vec![
        ("filament_retraction_length".to_string(), 1_200),
        ("filament_flow_ratio".to_string(), 980),
    ];
    let prompt = build_defect_analysis_prompt(&settings, "PLA");
    assert!(prompt.contains("1.2"));
    assert!(prompt.contains("0.98"));
}

#[test]
fn test_parse_defect_report_valid() {
    let json = r#"{
        "defects": [
            {"defect_type": "stringing", "severity": 0.6, "confidence": 0.85}
        ],
        "overall_quality": "acceptable",
        "notes": "Minor stringing visible"
    }"#;

    let report = parse_defect_report(json).unwrap();
    assert_eq!(report.defects.len(), 1);
    assert_eq!(report.defects[0].defect_type, "stringing");
    assert_eq!(report.overall_quality, "acceptable");
    assert_eq!(report.notes, Some("Minor stringing visible".to_string()));
}

#[test]
fn test_parse_defect_report_multiple_defects() {
    let json = r#"{
        "defects": [
            {"defect_type": "stringing", "severity": 0.6, "confidence": 0.85},
            {"defect_type": "warping", "severity": 0.3, "confidence": 0.7}
        ],
        "overall_quality": "poor",
        "notes": null
    }"#;

    let report = parse_defect_report(json).unwrap();
    assert_eq!(report.defects.len(), 2);
    assert_eq!(report.defects[0].defect_type, "stringing");
    assert_eq!(report.defects[1].defect_type, "warping");
    assert_eq!(report.overall_quality, "poor");
    assert!(report.notes.is_none());
}

#[test]
fn test_parse_defect_report_no_defects() {
    let json = r#"{
        "defects": [],
        "overall_quality": "excellent",
        "notes": null
    }"#;

    let report = parse_defect_report(json).unwrap();
    assert!(report.defects.is_empty());
    assert_eq!(report.overall_quality, "excellent");
    assert!(report.notes.is_none());
}

#[test]
fn test_parse_defect_report_missing_quality() {
    let json = r#"{"defects": []}"#;
    let result = parse_defect_report(json);
    assert!(result.is_err());
    assert!(result.unwrap_err().contains("overall_quality"));
}

#[test]
fn test_parse_defect_report_missing_defects() {
    let json = r#"{"overall_quality": "good"}"#;
    let result = parse_defect_report(json);
    assert!(result.is_err());
    assert!(result.unwrap_err().contains("defects"));
}

#[test]
fn test_parse_defect_report_invalid_json() {
    let result = parse_defect_report("not valid json");
    assert!(result.is_err());
    assert!(result.unwrap_err().contains("Failed to parse"));
}

#[test]
fn test_parse_defect_report_skips_malformed_defects() {
    let json = r#"{
        "defects": [
            {"defect_type": "stringing", "severity": 0.6, "confidence": 0.85},
            {"defect_type": "warping"}
        ],
        "overall_quality": "poor",
        "notes": null
    }"#;

    let report = parse_defect_report(json).unwrap();
    // Second defect is skipped because it's missing severity/confidence
    assert_eq!(report.defects.len(), 1);
    assert_eq!(report.defects[0].defect_type, "stringing");
}

#[test]
fn defect_report_values_in_thousandths() {
    let json = r#"{"defects": [{"defect_type": "z_banding", "severity": 0.45, "confidence": 1}],
                   "overall_quality": "good", "notes": "fine"}"#;
    let report = parse_defect_report(json).unwrap();
    assert_eq!(report.defects[0].severity, 450);
    assert_eq!(report.defects[0].confidence, 1000);
}

#[test]
fn defect_report_error_texts() {
    assert_eq!(parse_defect_report("[1, 2]").unwrap_err(), "Missing 'defects' array");
    assert_eq!(
        parse_defect_report(r#"{"defects": [], "overall_quality": 3}"#).unwrap_err(),
        "Missing 'overall_quality' field"
    );
    let e = parse_defect_report("oops").unwrap_err();
    assert!(e.starts_with("Failed to parse defect report JSON: "));
    assert!(e.ends_with(". Response: oops"));
    let long = "z".repeat(700);
    assert!(parse_defect_report(&long).unwrap_err().ends_with(&format!("{}...", "z".repeat(500))));
}

#[test]
fn defect_report_cut_inside_a_character_is_not_read() {
    let mut text = "x".repeat(499);
    text.push('ü');
    assert!(read_defect_report(&text).is_none());
    assert!(read_defect_report(r#"{"defects": [], "overall_quality": "good"}"#).unwrap().is_ok());
}

#[test]
fn image_size_check() {
    assert!(check_image_size(200, 200).is_ok());
    assert!(check_image_size(4000, 3000).is_ok());
    let e = check_image_size(100, 100).unwrap_err();
    assert!(e.contains("100x100"));
    assert!(check_image_size(1000, 199).is_err());
}

#[test]
fn image_payloads_are_standard_base64() {
    assert_eq!(image_payload(&vec![0xff, 0xd8, 0xff]), "/9j/");
    assert_eq!(image_payload(&b"Man".to_vec()), "TWFu");
    assert_eq!(image_payload(&b"Ma".to_vec()), "TWE=");
    assert_eq!(image_from_payload("TWE="), Ok(b"Ma".to_vec()));
    assert!(image_from_payload("not base64!").unwrap_err().starts_with("Invalid base64 image data: "));
}
