//! The data of the defect mapping: detected defects, the rule
//! configuration, and the recommendations and conflicts it yields.
//!
//! Decimal quantities (severities, confidences, adjustment amounts and
//! parameter values) are held in thousandths of their unit.

use vstd::prelude::*;

verus! {

/// A defect found by image analysis. Severity and confidence are in
/// thousandths (1000 is certain, or most severe).
#[derive(Debug, Clone)]
pub struct DetectedDefect {
    pub defect_type: String,
    pub severity: i64,
    pub confidence: i64,
}

/// Abstract view of a detected defect.
pub struct DefectView {
    pub defect_type: Seq<char>,
    pub severity: int,
    pub confidence: int,
}

impl View for DetectedDefect {
    type V = DefectView;

    open spec fn view(&self) -> DefectView {
        DefectView {
            defect_type: self.defect_type@,
            severity: self.severity as int,
            confidence: self.confidence as int,
        }
    }
}

/// How an adjustment moves a parameter.
#[derive(Debug, Clone, Copy, PartialEq, Eq, Structural)]
pub enum Operation {
    /// Raise by the amount scaled by the defect's severity.
    Increase,
    /// Lower by the amount scaled by the defect's severity.
    Decrease,
    /// Set to the amount (a rule file's `Set`).
    SetTo,
}

/// One parameter change prescribed by a rule.
#[derive(Debug, Clone)]
pub struct Adjustment {
    pub parameter: String,
    pub operation: Operation,
    pub amount: i64,
    pub unit: String,
    pub rationale: String,
    /// Lower is more important.
    pub priority: u8,
}

/// Abstract view of an adjustment.
pub struct AdjustmentView {
    pub parameter: Seq<char>,
    pub operation: Operation,
    pub amount: int,
    pub unit: Seq<char>,
    pub rationale: Seq<char>,
    pub priority: u8,
}

impl View for Adjustment {
    type V = AdjustmentView;

    open spec fn view(&self) -> AdjustmentView {
        AdjustmentView {
            parameter: self.parameter@,
            operation: self.operation,
            amount: self.amount as int,
            unit: self.unit@,
            rationale: self.rationale@,
            priority: self.priority,
        }
    }
}

/// The adjustments to make for a defect type, from an optional severity up.
#[derive(Debug, Clone)]
pub struct Rule {
    pub defect: String,
    pub severity_min: Option<i64>,
    pub adjustments: Vec<Adjustment>,
}

/// Abstract view of a rule.
pub struct RuleView {
    pub defect: Seq<char>,
    pub severity_min: Option<int>,
    pub adjustments: Seq<AdjustmentView>,
}

impl View for Rule {
    type V = RuleView;

    open spec fn view(&self) -> RuleView {
        RuleView {
            defect: self.defect@,
            severity_min: match self.severity_min {
                Some(m) => Some(m as int),
                None => None,
            },
            adjustments: self.adjustments@.map_values(|a: Adjustment| a@),
        }
    }
}

/// Parameters whose joint adjustment by different defects is a known
/// conflict.
#[derive(Debug, Clone)]
pub struct ConflictDef {
    pub parameters: Vec<String>,
    pub description: String,
}

/// Abstract view of a conflict definition.
pub struct ConflictDefView {
    pub parameters: Seq<Seq<char>>,
    pub description: Seq<char>,
}

impl View for ConflictDef {
    type V = ConflictDefView;

    open spec fn view(&self) -> ConflictDefView {
        ConflictDefView {
            parameters: self.parameters@.map_values(|p: String| p@),
            description: self.description@,
        }
    }
}

/// Display information for one defect type.
#[derive(Debug, Clone)]
pub struct DefectInfo {
    pub display_name: String,
    pub description: String,
}

/// The rule configuration: the known defect types with their display
/// information, the rules, and the known conflicts.
#[derive(Debug, Clone)]
pub struct RulesConfig {
    pub defects: Vec<(String, DefectInfo)>,
    pub rules: Vec<Rule>,
    pub conflicts: Vec<ConflictDef>,
}

/// A recommended parameter change.
#[derive(Debug, Clone)]
pub struct Recommendation {
    pub defect: String,
    pub parameter: String,
    pub current_value: i64,
    pub recommended_value: i64,
    pub priority: u8,
    pub rationale: String,
    pub was_clamped: bool,
}

/// Abstract view of a recommendation.
pub struct RecommendationView {
    pub defect: Seq<char>,
    pub parameter: Seq<char>,
    pub current: int,
    pub recommended: int,
    pub priority: u8,
    pub rationale: Seq<char>,
    pub was_clamped: bool,
}

impl View for Recommendation {
    type V = RecommendationView;

    open spec fn view(&self) -> RecommendationView {
        RecommendationView {
            defect: self.defect@,
            parameter: self.parameter@,
            current: self.current_value as int,
            recommended: self.recommended_value as int,
            priority: self.priority,
            rationale: self.rationale@,
            was_clamped: self.was_clamped,
        }
    }
}

/// Defects whose recommendations pull a parameter (or a set of them) in
/// incompatible ways.
#[derive(Debug, Clone)]
pub struct Conflict {
    pub parameter: String,
    pub conflicting_defects: Vec<String>,
    pub description: String,
}

/// Abstract view of a conflict.
pub struct ConflictView {
    pub parameter: Seq<char>,
    pub defects: Seq<Seq<char>>,
    pub description: Seq<char>,
}

impl View for Conflict {
    type V = ConflictView;

    open spec fn view(&self) -> ConflictView {
        ConflictView {
            parameter: self.parameter@,
            defects: self.conflicting_defects@.map_values(|d: String| d@),
            description: self.description@,
        }
    }
}

/// The recommendations, most important first, and the conflicts among them.
#[derive(Debug, Clone)]
pub struct EvaluationResult {
    pub recommendations: Vec<Recommendation>,
    pub conflicts: Vec<Conflict>,
}

} // verus!
