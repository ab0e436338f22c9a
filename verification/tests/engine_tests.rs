use bambumate::mapper::engine::RuleEngine;
use bambumate::mapper::types::{
    Adjustment, ConflictDef, DefectInfo, DetectedDefect, Operation, Rule, RulesConfig,
};
use bambumate::scraper::http_client::RateLimiter;
use bambumate::scraper::types::MaterialType;

fn info(n: &str) -> DefectInfo {
    DefectInfo { display_name: n.to_string(), description: format!("{} description", n) }
}

fn adj(parameter: &str, operation: Operation, amount: i64, priority: u8) -> Adjustment {
    Adjustment {
        parameter: parameter.to_string(),
        operation,
        amount,
        unit: "mm".to_string(),
        rationale: format!("adjust {}", parameter),
        priority,
    }
}

fn rule(defect: &str, severity_min: Option<i64>, adjustments: Vec<Adjustment>) -> Rule {
    Rule { defect: defect.to_string(), severity_min, adjustments }
}

/// A small rule set in the shape of the shipped configuration.
fn rules() -> RulesConfig {
    RulesConfig {
        defects: vec![
            ("stringing".to_string(), info("Stringing/Oozing")),
            ("warping".to_string(), info("Warping/Lifting")),
            ("under_extrusion".to_string(), info("Under-Extrusion")),
            ("elephants_foot".to_string(), info("Elephant's Foot")),
            ("layer_adhesion".to_string(), info("Poor Layer Adhesion")),
            ("over_extrusion".to_string(), info("Over-Extrusion")),
            ("z_banding".to_string(), info("Z-Banding")),
        ],
        rules: vec![
            rule(
                "stringing",
                None,
                vec![
                    adj("filament_retraction_length", Operation::Increase, 1000, 1),
                    adj("nozzle_temperature", Operation::Decrease, 10000, 2),
                ],
            ),
            rule("stringing", Some(700), vec![adj("fan_min_speed", Operation::Increase, 20000, 3)]),
            rule("warping", None, vec![adj("cool_plate_temp", Operation::Increase, 10000, 1)]),
            rule(
                "under_extrusion",
                None,
                vec![
                    adj("filament_flow_ratio", Operation::Increase, 100, 1),
                    adj("filament_retraction_length", Operation::Decrease, 500, 2),
                ],
            ),
            rule("elephants_foot", None, vec![adj("cool_plate_temp", Operation::Decrease, 10000, 1)]),
            rule("layer_adhesion", None, vec![adj("nozzle_temperature", Operation::Increase, 10000, 1)]),
        ],
        conflicts: vec![ConflictDef {
            parameters: vec!["filament_retraction_length".to_string(), "filament_flow_ratio".to_string()],
            description: "Retraction and flow pull against each other".to_string(),
        }],
    }
}

fn engine() -> RuleEngine {
    RuleEngine::new(rules())
}

fn defect(t: &str, severity: i64) -> DetectedDefect {
    DetectedDefect { defect_type: t.to_string(), severity, confidence: 900 }
}

fn current_values() -> Vec<(String, i64)> {
    vec![
        ("nozzle_temperature".to_string(), 210_000),
        ("filament_retraction_length".to_string(), 800),
        ("filament_flow_ratio".to_string(), 1000),
        ("fan_min_speed".to_string(), 35_000),
        ("fan_max_speed".to_string(), 70_000),
        ("cool_plate_temp".to_string(), 60_000),
    ]
}

#[test]
fn defect_info_lookup() {
    let e = engine();
    let info = e.get_defect_info("stringing");
    assert!(info.is_some());
    let info = info.unwrap();
    assert_eq!(info.display_name, "Stringing/Oozing");
    assert!(!info.description.is_empty());
    assert!(e.get_defect_info("nonexistent").is_none());
}

#[test]
fn known_defects_in_order() {
    let e = engine();
    assert_eq!(
        e.known_defect_types(),
        vec![
            "stringing",
            "warping",
            "under_extrusion",
            "elephants_foot",
            "layer_adhesion",
            "over_extrusion",
            "z_banding"
        ]
    );
}

#[test]
fn stringing_raises_retraction_by_scaled_amount() {
    let r = engine().evaluate(&vec![defect("stringing", 700)], &current_values(), &MaterialType::PLA);
    let rec = r.recommendations.iter().find(|r| r.parameter == "filament_retraction_length").unwrap();
    assert_eq!(rec.current_value, 800);
    // 0.8 mm + 1 mm x 0.7 = 1.5 mm
    assert_eq!(rec.recommended_value, 1500);
    assert!(!rec.was_clamped);
    assert_eq!(rec.defect, "stringing");
    // the severe-stringing rule applies from 0.7 on
    assert!(r.recommendations.iter().any(|r| r.parameter == "fan_min_speed"));
}

#[test]
fn severity_threshold_and_scaling() {
    let low = engine().evaluate(&vec![defect("stringing", 300)], &current_values(), &MaterialType::PLA);
    let high = engine().evaluate(&vec![defect("stringing", 900)], &current_values(), &MaterialType::PLA);
    let delta = |r: &bambumate::mapper::types::EvaluationResult| {
        let rec = r.recommendations.iter().find(|r| r.parameter == "filament_retraction_length").unwrap();
        (rec.recommended_value - rec.current_value).abs()
    };
    assert_eq!(delta(&low), 300);
    assert_eq!(delta(&high), 900);
    assert!(!low.recommendations.iter().any(|r| r.parameter == "fan_min_speed"));
}

#[test]
fn recommendations_sorted_by_priority_stably() {
    let r = engine().evaluate(&vec![defect("stringing", 800)], &current_values(), &MaterialType::PLA);
    let order: Vec<(&str, u8)> = r.recommendations.iter().map(|r| (r.parameter.as_str(), r.priority)).collect();
    assert_eq!(
        order,
        vec![("filament_retraction_length", 1), ("nozzle_temperature", 2), ("fan_min_speed", 3)]
    );
    for w in r.recommendations.windows(2) {
        assert!(w[0].priority <= w[1].priority);
    }
}

#[test]
fn opposite_adjustments_and_defined_conflicts() {
    let r = engine().evaluate(
        &vec![defect("stringing", 700), defect("under_extrusion", 600)],
        &current_values(),
        &MaterialType::PLA,
    );
    let params: Vec<&str> = r.conflicts.iter().map(|c| c.parameter.as_str()).collect();
    assert_eq!(params, vec!["filament_retraction_length", "filament_retraction_length, filament_flow_ratio"]);
    assert_eq!(r.conflicts[0].conflicting_defects, vec!["stringing", "under_extrusion"]);
    assert_eq!(
        r.conflicts[0].description,
        "Multiple defects require opposite adjustments to filament_retraction_length"
    );
    assert_eq!(r.conflicts[1].conflicting_defects, vec!["stringing", "under_extrusion"]);
    assert_eq!(r.conflicts[1].description, "Retraction and flow pull against each other");
}

#[test]
fn nozzle_temperature_clamped_to_material_range() {
    let mut values = current_values();
    values[0].1 = 225_000;
    let r = engine().evaluate(&vec![defect("layer_adhesion", 1000)], &values, &MaterialType::PLA);
    let rec = r.recommendations.iter().find(|r| r.parameter == "nozzle_temperature").unwrap();
    assert_eq!(rec.recommended_value, 235_000);
    assert!(!rec.was_clamped);
    values[0].1 = 233_000;
    let r = engine().evaluate(&vec![defect("layer_adhesion", 1000)], &values, &MaterialType::PLA);
    let rec = r.recommendations.iter().find(|r| r.parameter == "nozzle_temperature").unwrap();
    assert_eq!(rec.recommended_value, 235_000);
    assert!(rec.was_clamped);
}

#[test]
fn warping_raises_and_elephants_foot_lowers_bed_temperature() {
    let up = engine().evaluate(&vec![defect("warping", 500)], &current_values(), &MaterialType::PLA);
    let rec = &up.recommendations[0];
    assert_eq!(rec.parameter, "cool_plate_temp");
    assert_eq!(rec.recommended_value, 65_000);
    let down = engine().evaluate(&vec![defect("elephants_foot", 600)], &current_values(), &MaterialType::PLA);
    let rec = &down.recommendations[0];
    assert_eq!(rec.parameter, "cool_plate_temp");
    assert_eq!(rec.recommended_value, 54_000);
}

#[test]
fn no_defects_no_recommendations() {
    let r = engine().evaluate(&vec![], &current_values(), &MaterialType::PLA);
    assert!(r.recommendations.is_empty());
    assert!(r.conflicts.is_empty());
}

#[test]
fn missing_value_counts_as_zero_and_unknown_defect_is_ignored() {
    let r = engine().evaluate(
        &vec![defect("stringing", 500), defect("nonexistent", 900)],
        &vec![],
        &MaterialType::PETG,
    );
    let rec = r.recommendations.iter().find(|r| r.parameter == "nozzle_temperature").unwrap();
    assert_eq!(rec.current_value, 0);
    // 0 - 5 C, clamped up to the PETG minimum of 210 C
    assert_eq!(rec.recommended_value, 210_000);
    assert!(rec.was_clamped);
    assert_eq!(r.recommendations.len(), 2);
}

#[test]
fn rate_limiter_waits_for_the_rest_of_the_interval() {
    let mut l = RateLimiter::new(1000);
    assert_eq!(l.min_interval(), 1000);
    assert_eq!(l.wait_needed("example.com", None, 5_000), None);
    l.record("example.com", 5_000);
    assert_eq!(l.wait_needed("example.com", None, 5_300), Some(700));
    assert_eq!(l.wait_needed("example.com", None, 6_000), None);
    assert_eq!(l.wait_needed("other.com", None, 5_300), None);
}

#[test]
fn rate_limiter_respects_longer_extra_delay() {
    let mut l = RateLimiter::new(1000);
    l.record("a.com", 0);
    assert_eq!(l.wait_needed("a.com", Some(3000), 1000), Some(2000));
    assert_eq!(l.wait_needed("a.com", Some(500), 200), Some(800));
    l.record("a.com", 10_000);
    assert_eq!(l.wait_needed("a.com", None, 10_100), Some(900));
}

// The scenarios below are stated against the rule set above.

fn is_bed_temp(p: &str) -> bool {
    p == "cool_plate_temp" || p == "hot_plate_temp" || p == "textured_plate_temp"
}

#[test]
fn test_stringing_produces_retraction_increase() {
    let result = engine().evaluate(&vec![defect("stringing", 700)], &current_values(), &MaterialType::PLA);
    let rec = result.recommendations.iter().find(|r| r.parameter == "filament_retraction_length");
    assert!(rec.is_some(), "Should recommend retraction adjustment");
    let rec = rec.unwrap();
    assert!(rec.recommended_value > rec.current_value);
}

#[test]
fn test_severity_scaling() {
    let low = engine().evaluate(&vec![defect("stringing", 300)], &current_values(), &MaterialType::PLA);
    let high = engine().evaluate(&vec![defect("stringing", 900)], &current_values(), &MaterialType::PLA);
    let delta = |r: &bambumate::mapper::types::EvaluationResult| {
        let rec = r.recommendations.iter().find(|r| r.parameter == "filament_retraction_length").unwrap();
        (rec.recommended_value - rec.current_value).abs()
    };
    assert!(delta(&high) > delta(&low));
}

#[test]
fn test_priority_sorting() {
    let result = engine().evaluate(&vec![defect("stringing", 800)], &current_values(), &MaterialType::PLA);
    for w in result.recommendations.windows(2) {
        assert!(w[0].priority <= w[1].priority, "Recommendations should be sorted by priority");
    }
}

#[test]
fn test_conflict_detection() {
    let result = engine().evaluate(
        &vec![defect("stringing", 700), defect("under_extrusion", 600)],
        &current_values(),
        &MaterialType::PLA,
    );
    let has_retraction_conflict = result.conflicts.iter().any(|c| {
        c.parameter.contains("retraction")
            || (c.conflicting_defects.contains(&"stringing".to_string())
                && c.conflicting_defects.contains(&"under_extrusion".to_string()))
    });
    assert!(has_retraction_conflict || !result.conflicts.is_empty());
}

#[test]
fn test_safe_range_clamping() {
    let mut values = current_values();
    values[0].1 = 230_000;
    let result = engine().evaluate(&vec![defect("layer_adhesion", 1000)], &values, &MaterialType::PLA);
    if let Some(rec) = result.recommendations.iter().find(|r| r.parameter == "nozzle_temperature") {
        assert!(rec.recommended_value <= 235_000, "PLA temp should not exceed 235C");
    }
}

#[test]
fn test_known_defect_types() {
    let e = engine();
    let types = e.known_defect_types();
    for t in ["stringing", "warping", "layer_adhesion", "under_extrusion", "over_extrusion", "elephants_foot", "z_banding"] {
        assert!(types.contains(&t), "Should know {}", t);
    }
}

#[test]
fn test_empty_defects_returns_empty_result() {
    let result = engine().evaluate(&vec![], &current_values(), &MaterialType::PLA);
    assert!(result.recommendations.is_empty());
    assert!(result.conflicts.is_empty());
}

#[test]
fn test_get_defect_info() {
    let e = engine();
    let info = e.get_defect_info("stringing");
    assert!(info.is_some());
    let info = info.unwrap();
    assert_eq!(info.display_name, "Stringing/Oozing");
    assert!(!info.description.is_empty());
    assert!(e.get_defect_info("nonexistent").is_none());
}

#[test]
fn test_warping_produces_bed_temp_increase() {
    let result = engine().evaluate(&vec![defect("warping", 500)], &current_values(), &MaterialType::PLA);
    let rec = result.recommendations.iter().find(|r| is_bed_temp(&r.parameter));
    assert!(rec.is_some(), "Should recommend bed temp adjustment");
    let rec = rec.unwrap();
    assert!(rec.recommended_value > rec.current_value);
}

#[test]
fn test_elephants_foot_decreases_bed_temp() {
    let result = engine().evaluate(&vec![defect("elephants_foot", 600)], &current_values(), &MaterialType::PLA);
    let rec = result.recommendations.iter().find(|r| is_bed_temp(&r.parameter));
    assert!(rec.is_some(), "Should recommend bed temp adjustment");
    let rec = rec.unwrap();
    assert!(rec.recommended_value < rec.current_value);
}
