use bambumate::commands::models::model_list;
use bambumate::analyzer::image_prep::image_media_type;
use bambumate::commands::analyzer::{
    apply_selected_recommendations, default_profile_values, detect_material_type, extract_profile_values,
    format_change,
    format_recommendations, format_value_for_profile, parameter_display_info,
};
use bambumate::mapper::engine::RuleEngine;
use bambumate::mapper::types::{Adjustment, DefectInfo, DetectedDefect, Operation, Rule, RulesConfig};
use bambumate::profile::types::ProfileValue;
use bambumate::scraper::types::MaterialType;
use bambumate::commands::config::keychain_service;
use bambumate::profile::types::FilamentProfile;

#[test]
fn test_image_media_type() {
    assert_eq!(image_media_type(), "image/jpeg");
}

#[test]
fn test_parameter_display_info() {
    let (label, unit) = parameter_display_info("nozzle_temperature");
    assert_eq!(label, "Nozzle Temperature");
    assert_eq!(unit, "C");

    let (label, unit) = parameter_display_info("filament_retraction_length");
    assert_eq!(label, "Retraction Length");
    assert_eq!(unit, "mm");
}

#[test]
fn test_format_change() {
    assert_eq!(format_change(215_000, 210_000, "C"), "215 -> 210C");
    assert_eq!(format_change(800, 1_200, "mm"), "0.8 -> 1.2mm");
    assert_eq!(format_change(1_000, 950, ""), "1.00 -> 0.95");
}

#[test]
fn test_default_profile_values() {
    let values = default_profile_values();
    assert!(values.iter().any(|(k, _)| k == "nozzle_temperature"));
    assert!(values.iter().any(|(k, _)| k == "filament_retraction_length"));
    assert_eq!(
        values.iter().find(|(k, _)| k == "nozzle_temperature").map(|(_, v)| *v),
        Some(200_000)
    );
}

#[test]
fn test_detect_material_type_default() {
    let profile = FilamentProfile::new();
    assert_eq!(detect_material_type(&profile), "PLA");
}

#[test]
fn test_detect_material_type_from_inherits() {
    let mut profile = FilamentProfile::new();
    profile.set_string("inherits", "Generic PETG @BBL".to_string());
    assert_eq!(detect_material_type(&profile), "PETG");
}

#[test]
fn test_detect_material_type_from_filament_type() {
    let mut profile = FilamentProfile::new();
    profile.set_string_array("filament_type", vec!["ABS".to_string()]);
    assert_eq!(detect_material_type(&profile), "ABS");
}

#[test]
fn profile_value_formats() {
    assert_eq!(format_value_for_profile(215_000, "nozzle_temperature"), "215");
    assert_eq!(format_value_for_profile(800, "filament_retraction_length"), "0.8");
}

#[test]
fn keychain_services() {
    assert_eq!(keychain_service("kimi"), "bambumate-kimi-api");
    assert_eq!(keychain_service("local"), "");
    assert_eq!(keychain_service(""), "");
}

#[test]
fn test_extract_profile_values_with_arrays() {
    let mut profile = FilamentProfile::new();
    profile.set_string_array("nozzle_temperature", vec!["215".to_string()]);
    profile.set_string_array("cool_plate_temp", vec!["55".to_string()]);
    profile.set_string_array("filament_retraction_length", vec!["0.8".to_string()]);
    profile.set_string_array("filament_type", vec!["PLA".to_string()]);

    let values = extract_profile_values(&profile);
    let get = |k: &str| values.iter().find(|(n, _)| n == k).map(|(_, v)| *v);
    assert_eq!(get("nozzle_temperature"), Some(215_000));
    assert_eq!(get("cool_plate_temp"), Some(55_000));
    assert_eq!(get("filament_retraction_length"), Some(800));
    assert_eq!(values.len(), 3);
}

#[test]
fn profile_values_from_strings_and_scalars() {
    let mut profile = FilamentProfile::new();
    profile.set_string("filament_flow_ratio", "0.98".to_string());
    profile.set_value("pressure_advance", ProfileValue::Scalar("0.04".to_string()));
    profile.set_value("fan_min_speed", ProfileValue::Scalar("true".to_string()));
    profile.set_string_array("fan_max_speed", vec!["n/a".to_string()]);
    let values = extract_profile_values(&profile);
    assert_eq!(
        values,
        vec![("filament_flow_ratio".to_string(), 980), ("pressure_advance".to_string(), 40)]
    );
}

fn stringing_engine() -> RuleEngine {
    let adj = |p: &str, op: Operation, amount: i64, priority: u8| Adjustment {
        parameter: p.to_string(),
        operation: op,
        amount,
        unit: "mm".to_string(),
        rationale: format!("change {}", p),
        priority,
    };
    RuleEngine::new(RulesConfig {
        defects: vec![(
            "stringing".to_string(),
            DefectInfo { display_name: "Stringing/Oozing".to_string(), description: "Thin strands".to_string() },
        )],
        rules: vec![Rule {
            defect: "stringing".to_string(),
            severity_min: None,
            adjustments: vec![
                adj("filament_retraction_length", Operation::Increase, 1000, 1),
                adj("nozzle_temperature", Operation::Decrease, 10000, 2),
            ],
        }],
        conflicts: vec![],
    })
}

#[test]
fn recommendations_formatted_for_display() {
    let current = vec![
        ("filament_retraction_length".to_string(), 800),
        ("nozzle_temperature".to_string(), 210_000),
    ];
    let defects = vec![DetectedDefect { defect_type: "stringing".to_string(), severity: 600, confidence: 850 }];
    let evaluation = stringing_engine().evaluate(&defects, &current, &MaterialType::PLA);
    let recs = format_recommendations(&evaluation, &current);
    assert_eq!(recs.len(), 2);
    let r = &recs[0];
    assert_eq!(r.parameter, "filament_retraction_length");
    assert_eq!(r.parameter_label, "Retraction Length");
    assert_eq!(r.unit, "mm");
    assert_eq!(r.change_display, "0.8 -> 1.4mm");
    let r = &recs[1];
    assert_eq!(r.parameter_label, "Nozzle Temperature");
    assert_eq!(r.change_display, "210 -> 204C");
    assert_eq!(r.priority, 2);
    for r in &recs {
        assert!(!r.defect.is_empty());
        assert!(!r.rationale.is_empty());
        assert!(r.change_display.contains("->"));
    }
}

#[test]
fn selected_recommendations_written_into_profile() {
    let current = vec![
        ("filament_retraction_length".to_string(), 800),
        ("nozzle_temperature".to_string(), 210_000),
    ];
    let defects = vec![DetectedDefect { defect_type: "stringing".to_string(), severity: 600, confidence: 850 }];
    let evaluation = stringing_engine().evaluate(&defects, &current, &MaterialType::PLA);
    let recs = format_recommendations(&evaluation, &current);
    let mut profile = FilamentProfile::new();
    profile.set_string_array("nozzle_temperature", vec!["210".to_string(), "210".to_string()]);
    let changes = apply_selected_recommendations(&mut profile, &recs, &vec!["filament_retraction_length".to_string()]);
    assert_eq!(changes.len(), 1);
    assert_eq!(changes[0].parameter, "filament_retraction_length");
    assert_eq!(changes[0].old_value, 800);
    assert_eq!(changes[0].new_value, 1400);
    assert_eq!(profile.get_string_array("filament_retraction_length"), Some(vec!["1.4".to_string()]));
    assert_eq!(
        profile.get_string_array("nozzle_temperature"),
        Some(vec!["210".to_string(), "210".to_string()])
    );
}

#[test]
fn model_listing_named_and_sorted_by_id() {
    let models = model_list(vec![
        ("m-2".to_string(), None, Some("Second".to_string())),
        ("m-1".to_string(), Some("First Display".to_string()), Some("first".to_string())),
        ("a-0".to_string(), None, None),
    ]);
    let got: Vec<(&str, &str)> = models.iter().map(|m| (m.id.as_str(), m.name.as_str())).collect();
    assert_eq!(got, vec![("a-0", "a-0"), ("m-1", "First Display"), ("m-2", "Second")]);
}

fn stringing_and_warping_engine() -> RuleEngine {
    let adj = |p: &str, op: Operation, amount: i64, unit: &str, priority: u8| Adjustment {
        parameter: p.to_string(),
        operation: op,
        amount,
        unit: unit.to_string(),
        rationale: format!("change {}", p),
        priority,
    };
    let info = |n: &str| DefectInfo { display_name: n.to_string(), description: format!("{} description", n) };
    RuleEngine::new(RulesConfig {
        defects: vec![
            ("stringing".to_string(), info("Stringing/Oozing")),
            ("warping".to_string(), info("Warping/Lifting")),
        ],
        rules: vec![
            Rule {
                defect: "stringing".to_string(),
                severity_min: None,
                adjustments: vec![
                    adj("filament_retraction_length", Operation::Increase, 1000, "mm", 1),
                    adj("nozzle_temperature", Operation::Decrease, 10000, "C", 2),
                ],
            },
            Rule {
                defect: "warping".to_string(),
                severity_min: None,
                adjustments: vec![adj("cool_plate_temp", Operation::Increase, 10000, "C", 1)],
            },
        ],
        conflicts: vec![],
    })
}

#[test]
fn test_format_recommendations_from_evaluation() {
    let defects = vec![DetectedDefect { defect_type: "stringing".to_string(), severity: 600, confidence: 850 }];
    let current_values = vec![
        ("filament_retraction_length".to_string(), 800),
        ("nozzle_temperature".to_string(), 210_000),
    ];
    let evaluation = stringing_and_warping_engine().evaluate(&defects, &current_values, &MaterialType::PLA);
    let recommendations = format_recommendations(&evaluation, &current_values);
    assert!(!recommendations.is_empty(), "Should produce recommendations");
    let rec = recommendations.iter().find(|r| r.parameter == "filament_retraction_length");
    assert!(rec.is_some(), "Should have retraction recommendation");
    let rec = rec.unwrap();
    assert!(rec.change_display.contains("->"), "Should show change");
    assert_eq!(rec.unit, "mm");
}

#[test]
fn test_full_pipeline_with_mock_defects() {
    let current_values = vec![
        ("nozzle_temperature".to_string(), 220_000),
        ("filament_retraction_length".to_string(), 500),
        ("cool_plate_temp".to_string(), 65_000),
    ];
    let defects = vec![
        DetectedDefect { defect_type: "stringing".to_string(), severity: 700, confidence: 900 },
        DetectedDefect { defect_type: "warping".to_string(), severity: 400, confidence: 750 },
    ];
    let evaluation = stringing_and_warping_engine().evaluate(&defects, &current_values, &MaterialType::PLA);
    let recommendations = format_recommendations(&evaluation, &current_values);
    assert!(recommendations.iter().any(|r| r.defect == "stringing"), "Should have stringing recommendations");
    assert!(recommendations.iter().any(|r| r.defect == "warping"), "Should have warping recommendations");
}

#[test]
fn test_recommendation_display_fields() {
    let current_values = vec![("nozzle_temperature".to_string(), 215_000)];
    let defects = vec![DetectedDefect { defect_type: "stringing".to_string(), severity: 500, confidence: 800 }];
    let evaluation = stringing_and_warping_engine().evaluate(&defects, &current_values, &MaterialType::PLA);
    let recommendations = format_recommendations(&evaluation, &current_values);
    for rec in &recommendations {
        assert!(!rec.defect.is_empty(), "Defect should be set");
        assert!(!rec.parameter.is_empty(), "Parameter should be set");
        assert!(!rec.parameter_label.is_empty(), "Label should be set");
        assert!(rec.change_display.contains("->"), "Change display should show arrow");
        assert!(!rec.rationale.is_empty(), "Rationale should be set");
    }
}
