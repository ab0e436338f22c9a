//! The rule engine: turns detected defects and current profile values into
//! ranked parameter recommendations, clamped to the material's safe ranges,
//! and reports conflicting recommendations.

use vstd::prelude::*;
use crate::text::{chars_eq, chars_of};
use crate::scraper::types::MaterialType;
use crate::text::{eq_str, join, join_with, push_str, string_of};
use crate::commands::profile::{
    key_slot, law_stable_sorted_in_order, lemma_text_le_transitive, lemma_text_lt_total, lemma_text_lt_transitive,
    lemma_text_lt_irreflexive, stable_sorted, text_less, text_lt, texts_sorted,
};
use crate::scraper::validation::{constraints_for_material, constraint_table};
use crate::analyzer::prompts::{setting, find_setting};
use super::types::{
    AdjustmentView, Adjustment, Conflict, ConflictDef, ConflictDefView, ConflictView, DefectInfo, DefectView,
    DetectedDefect, EvaluationResult, Operation, Recommendation, RecommendationView, Rule, RuleView,
    RulesConfig,
};

verus! {

broadcast use vstd::string::group_string_axioms;

/// Largest magnitude of a severity or of an adjustment amount, in
/// thousandths.
pub const SCALE_LIMIT: i64 = 1_000_000_000;

/// Largest magnitude of a current parameter value, in thousandths.
pub const VALUE_LIMIT: i64 = 1_000_000_000_000_000;

/// A product of two thousandths-scaled numbers, rounded to thousandths
/// (half away from zero).
pub open spec fn per_mille(p: int) -> int {
    if p >= 0 {
        (p + 500) / 1000
    } else {
        -((-p + 500) / 1000)
    }
}

/// The change an adjustment makes: its amount scaled by the severity, up or
/// down, or the difference to the amount for `SetTo`.
pub open spec fn change(op: Operation, amount: int, severity: int, current: int) -> int {
    match op {
        Operation::Increase => per_mille(amount * severity),
        Operation::Decrease => -per_mille(amount * severity),
        Operation::SetTo => amount - current,
    }
}

/// The material-safe range of a parameter, in thousandths, if it has one.
pub open spec fn safe_range(param: Seq<char>, material: MaterialType) -> Option<(int, int)> {
    let c = constraint_table(material.tag());
    if param == "nozzle_temperature"@ || param == "nozzle_temperature_initial_layer"@ {
        Some((c.0 * 1000, c.1 * 1000))
    } else if param == "cool_plate_temp"@ || param == "hot_plate_temp"@ || param == "textured_plate_temp"@ {
        Some((c.2 * 1000, c.3 * 1000))
    } else if param == "filament_retraction_length"@ {
        Some((0, 15000))
    } else if param == "filament_retraction_speed"@ {
        Some((10000, 100000))
    } else if param == "filament_flow_ratio"@ {
        Some((850, 1150))
    } else if param == "fan_min_speed"@ || param == "fan_max_speed"@ || param == "overhang_fan_speed"@ {
        Some((0, 100000))
    } else if param == "pressure_advance"@ {
        Some((0, 100))
    } else {
        None
    }
}

/// A value clamped to the parameter's safe range, and whether it moved.
pub open spec fn clamped(param: Seq<char>, value: int, material: MaterialType) -> (int, bool) {
    match safe_range(param, material) {
        Some((lo, hi)) => if value < lo {
            (lo, true)
        } else if value > hi {
            (hi, true)
        } else {
            (value, false)
        },
        None => (value, false),
    }
}

/// The current value of a parameter (the first entry of that name), 0 when
/// it has none.
pub open spec fn current_of(values: Seq<(Seq<char>, i64)>, param: Seq<char>) -> int {
    match setting(values, param) {
        Some(v) => v as int,
        None => 0,
    }
}

/// The recommendation an adjustment makes for a defect.
pub open spec fn recommendation(
    d: DefectView,
    a: AdjustmentView,
    values: Seq<(Seq<char>, i64)>,
    material: MaterialType,
) -> RecommendationView {
    let current = current_of(values, a.parameter);
    let target = clamped(a.parameter, current + change(a.operation, a.amount, d.severity, current), material);
    RecommendationView {
        defect: d.defect_type,
        parameter: a.parameter,
        current,
        recommended: target.0,
        priority: a.priority,
        rationale: a.rationale,
        was_clamped: target.1,
    }
}

/// Whether a rule applies to a defect: same type, and at least its minimum
/// severity if it has one.
pub open spec fn applies(r: RuleView, d: DefectView) -> bool {
    &&& r.defect == d.defect_type
    &&& match r.severity_min {
        Some(m) => d.severity >= m,
        None => true,
    }
}

/// The recommendations of some adjustments for a defect, in order.
pub open spec fn adjustment_recs(
    d: DefectView,
    adjs: Seq<AdjustmentView>,
    values: Seq<(Seq<char>, i64)>,
    material: MaterialType,
) -> Seq<RecommendationView>
    decreases adjs.len(),
{
    if adjs.len() == 0 {
        Seq::empty()
    } else {
        adjustment_recs(d, adjs.drop_last(), values, material).push(recommendation(d, adjs.last(), values, material))
    }
}

/// The recommendations of the rules that apply to a defect, in order.
pub open spec fn rule_recs(
    d: DefectView,
    rules: Seq<RuleView>,
    values: Seq<(Seq<char>, i64)>,
    material: MaterialType,
) -> Seq<RecommendationView>
    decreases rules.len(),
{
    if rules.len() == 0 {
        Seq::empty()
    } else {
        rule_recs(d, rules.drop_last(), values, material) + if applies(rules.last(), d) {
            adjustment_recs(d, rules.last().adjustments, values, material)
        } else {
            Seq::empty()
        }
    }
}

/// The recommendations for all defects, defect by defect, before ranking.
pub open spec fn candidate_recs(
    defects: Seq<DefectView>,
    rules: Seq<RuleView>,
    values: Seq<(Seq<char>, i64)>,
    material: MaterialType,
) -> Seq<RecommendationView>
    decreases defects.len(),
{
    if defects.len() == 0 {
        Seq::empty()
    } else {
        candidate_recs(defects.drop_last(), rules, values, material) + rule_recs(
            defects.last(),
            rules,
            values,
            material,
        )
    }
}

/// Severities, amounts and current values are within the limits of the
/// thousandths arithmetic.
pub open spec fn within_limits(
    defects: Seq<DefectView>,
    rules: Seq<RuleView>,
    values: Seq<(Seq<char>, i64)>,
) -> bool {
    &&& forall|i: int| 0 <= i < defects.len() ==> -SCALE_LIMIT <= #[trigger] defects[i].severity <= SCALE_LIMIT
    &&& forall|i: int, j: int|
        0 <= i < rules.len() && 0 <= j < rules[i].adjustments.len() ==> -SCALE_LIMIT
            <= #[trigger] rules[i].adjustments[j].amount <= SCALE_LIMIT
    &&& forall|i: int| 0 <= i < values.len() ==> -VALUE_LIMIT <= #[trigger] values[i].1 <= VALUE_LIMIT
}

/// Clamps a value to the parameter's material-safe range.
fn clamp_to_safe_range(param: &str, value: i64, material: &MaterialType) -> (r: (i64, bool))
    ensures
        (r.0 as int, r.1) == clamped(param@, value as int, *material),
{
    let c = constraints_for_material(material);
    let p = chars_of(param);
    let (lo, hi): (i64, i64) = if eq_str(&p, "nozzle_temperature") || eq_str(&p, "nozzle_temperature_initial_layer") {
        (c.nozzle_temp_min as i64 * 1000, c.nozzle_temp_max as i64 * 1000)
    } else if eq_str(&p, "cool_plate_temp") || eq_str(&p, "hot_plate_temp") || eq_str(&p, "textured_plate_temp") {
        (c.bed_temp_min as i64 * 1000, c.bed_temp_max as i64 * 1000)
    } else if eq_str(&p, "filament_retraction_length") {
        (0, 15000)
    } else if eq_str(&p, "filament_retraction_speed") {
        (10000, 100000)
    } else if eq_str(&p, "filament_flow_ratio") {
        (850, 1150)
    } else if eq_str(&p, "fan_min_speed") || eq_str(&p, "fan_max_speed") || eq_str(&p, "overhang_fan_speed") {
        (0, 100000)
    } else if eq_str(&p, "pressure_advance") {
        (0, 100)
    } else {
        return (value, false);
    };
    if value < lo {
        (lo, true)
    } else if value > hi {
        (hi, true)
    } else {
        (value, false)
    }
}

/// The values as (name, thousandths) pairs.
pub open spec fn values_view(values: Seq<(String, i64)>) -> Seq<(Seq<char>, i64)> {
    values.map_values(|e: (String, i64)| (e.0@, e.1))
}

/// A found setting is one of the values.
proof fn lemma_setting_is_value(values: Seq<(Seq<char>, i64)>, key: Seq<char>)
    requires
        setting(values, key) is Some,
    ensures
        exists|i: int| 0 <= i < values.len() && setting(values, key) == Some(#[trigger] values[i].1),
    decreases values.len(),
{
    if values[0].0 != key {
        lemma_setting_is_value(values.drop_first(), key);
        let i = choose|i: int| 0 <= i < values.drop_first().len() && setting(values.drop_first(), key) == Some(
            #[trigger] values.drop_first()[i].1,
        );
        assert(values[i + 1].1 == values.drop_first()[i].1);
    } else {
        assert(setting(values, key) == Some(values[0].1));
    }
}

/// The recommendation an adjustment makes for a defect.
fn recommend(d: &DetectedDefect, adj: &Adjustment, values: &Vec<(String, i64)>, material: &MaterialType) -> (r:
    Recommendation)
    requires
        -SCALE_LIMIT <= d.severity <= SCALE_LIMIT,
        -SCALE_LIMIT <= adj.amount <= SCALE_LIMIT,
        forall|i: int| 0 <= i < values.len() ==> -VALUE_LIMIT <= #[trigger] values@[i].1 <= VALUE_LIMIT,
    ensures
        r@ == recommendation(d@, adj@, values_view(values@), *material),
{
    let ghost vv = values_view(values@);
    let current: i64 = match find_setting(values, adj.parameter.as_str()) {
        Some(v) => {
            proof {
                lemma_setting_is_value(vv, adj.parameter@);
                let i = choose|i: int| 0 <= i < vv.len() && setting(vv, adj.parameter@) == Some(#[trigger] vv[i].1);
                assert(vv[i].1 == values@[i].1);
            }
            v
        },
        None => 0,
    };
    assert(current as int == current_of(vv, adj.parameter@));
    let target: i64 = match adj.operation {
        Operation::SetTo => adj.amount,
        op => {
            let a = adj.amount;
            let sv = d.severity;
            assert(-1_000_000_000_000_000_000 <= a * sv <= 1_000_000_000_000_000_000) by (nonlinear_arith)
                requires
                    -1_000_000_000 <= a <= 1_000_000_000,
                    -1_000_000_000 <= sv <= 1_000_000_000,
            ;
            let p: i64 = a * sv;
            let scaled: i64 = if p >= 0 {
                (p + 500) / 1000
            } else {
                -((-p + 500) / 1000)
            };
            assert(scaled == per_mille(a * sv));
            match op {
                Operation::Increase => current + scaled,
                _ => current - scaled,
            }
        },
    };
    assert(target == current_of(vv, adj.parameter@) + change(adj.operation, adj@.amount, d@.severity, current as int));
    let (value, was_clamped) = clamp_to_safe_range(adj.parameter.as_str(), target, material);
    Recommendation {
        defect: d.defect_type.clone(),
        parameter: adj.parameter.clone(),
        current_value: current,
        recommended_value: value,
        priority: adj.priority,
        rationale: adj.rationale.clone(),
        was_clamped,
    }
}

/// The views of some recommendations.
pub open spec fn recs_view(recs: Seq<Recommendation>) -> Seq<RecommendationView> {
    recs.map_values(|r: Recommendation| r@)
}

/// The views of some rules.
pub open spec fn rules_view(rules: Seq<Rule>) -> Seq<RuleView> {
    rules.map_values(|r: Rule| r@)
}

/// Appends the recommendations of a rule's adjustments for a defect.
fn push_adjustment_recs(
    out: &mut Vec<Recommendation>,
    d: &DetectedDefect,
    adjs: &Vec<Adjustment>,
    values: &Vec<(String, i64)>,
    material: &MaterialType,
)
    requires
        -SCALE_LIMIT <= d.severity <= SCALE_LIMIT,
        forall|j: int| 0 <= j < adjs.len() ==> -SCALE_LIMIT <= #[trigger] adjs@[j].amount <= SCALE_LIMIT,
        forall|i: int| 0 <= i < values.len() ==> -VALUE_LIMIT <= #[trigger] values@[i].1 <= VALUE_LIMIT,
    ensures
        recs_view(final(out)@) == recs_view(old(out)@) + adjustment_recs(
            d@,
            adjs@.map_values(|a: Adjustment| a@),
            values_view(values@),
            *material,
        ),
{
    let ghost start = recs_view(out@);
    let ghost av = adjs@.map_values(|a: Adjustment| a@);
    let mut k: usize = 0;
    while k < adjs.len()
        invariant
            k <= adjs.len(),
            av == adjs@.map_values(|a: Adjustment| a@),
            -SCALE_LIMIT <= d.severity <= SCALE_LIMIT,
            forall|j: int| 0 <= j < adjs.len() ==> -SCALE_LIMIT <= #[trigger] adjs@[j].amount <= SCALE_LIMIT,
            forall|i: int| 0 <= i < values.len() ==> -VALUE_LIMIT <= #[trigger] values@[i].1 <= VALUE_LIMIT,
            recs_view(out@) == start + adjustment_recs(d@, av.take(k as int), values_view(values@), *material),
        decreases adjs.len() - k,
    {
        proof {
            assert(av.take(k + 1).drop_last() == av.take(k as int));
            assert(av.take(k + 1).last() == adjs@[k as int]@);
        }
        let r = recommend(d, &adjs[k], values, material);
        let ghost before = out@;
        out.push(r);
        proof {
            assert(recs_view(out@) == recs_view(before).push(r@));
        }
        k = k + 1;
    }
    assert(av.take(adjs.len() as int) == av);
}

/// Appends the recommendations of the rules that apply to a defect.
fn push_rule_recs(
    out: &mut Vec<Recommendation>,
    d: &DetectedDefect,
    rules: &Vec<Rule>,
    values: &Vec<(String, i64)>,
    material: &MaterialType,
)
    requires
        -SCALE_LIMIT <= d.severity <= SCALE_LIMIT,
        forall|i: int, j: int|
            0 <= i < rules.len() && 0 <= j < rules@[i].adjustments.len() ==> -SCALE_LIMIT
                <= #[trigger] rules@[i].adjustments@[j].amount <= SCALE_LIMIT,
        forall|i: int| 0 <= i < values.len() ==> -VALUE_LIMIT <= #[trigger] values@[i].1 <= VALUE_LIMIT,
    ensures
        recs_view(final(out)@) == recs_view(old(out)@) + rule_recs(
            d@,
            rules_view(rules@),
            values_view(values@),
            *material,
        ),
{
    let ghost start = recs_view(out@);
    let ghost rv = rules_view(rules@);
    let mut i: usize = 0;
    while i < rules.len()
        invariant
            i <= rules.len(),
            rv == rules_view(rules@),
            -SCALE_LIMIT <= d.severity <= SCALE_LIMIT,
            forall|i: int, j: int|
                0 <= i < rules.len() && 0 <= j < rules@[i].adjustments.len() ==> -SCALE_LIMIT
                    <= #[trigger] rules@[i].adjustments@[j].amount <= SCALE_LIMIT,
            forall|i: int| 0 <= i < values.len() ==> -VALUE_LIMIT <= #[trigger] values@[i].1 <= VALUE_LIMIT,
            recs_view(out@) == start + rule_recs(d@, rv.take(i as int), values_view(values@), *material),
        decreases rules.len() - i,
    {
        proof {
            assert(rv.take(i + 1).drop_last() == rv.take(i as int));
            assert(rv.take(i + 1).last() == rules@[i as int]@);
        }
        let rule = &rules[i];
        let applicable = chars_eq(&chars_of(rule.defect.as_str()), &chars_of(d.defect_type.as_str())) && match rule.severity_min {
            Some(m) => d.severity >= m,
            None => true,
        };
        let ghost before = recs_view(out@);
        if applicable {
            assert forall|j: int| 0 <= j < rule.adjustments.len() implies -SCALE_LIMIT
                <= #[trigger] rule.adjustments@[j].amount <= SCALE_LIMIT by {
                assert(rules@[i as int].adjustments@[j].amount == rule.adjustments@[j].amount);
            }
            push_adjustment_recs(out, d, &rule.adjustments, values, material);
            assert(recs_view(out@) == start + rule_recs(d@, rv.take(i + 1), values_view(values@), *material));
        } else {
            assert(!applies(rule@, d@));
            assert(recs_view(out@) == start + rule_recs(d@, rv.take(i + 1), values_view(values@), *material));
        }
        i = i + 1;
    }
    assert(rv.take(rules.len() as int) == rv);
}

/// Where a stable sort places a recommendation of priority `p` into `s`:
/// after every recommendation whose priority is not greater, scanning from
/// the end.
pub open spec fn priority_slot(s: Seq<RecommendationView>, p: u8) -> int
    decreases s.len(),
{
    if s.len() == 0 {
        0
    } else if p < s.last().priority {
        priority_slot(s.drop_last(), p)
    } else {
        s.len() as int
    }
}

/// The recommendations stably sorted by priority (equal priorities keep
/// their order).
pub open spec fn ranked(s: Seq<RecommendationView>) -> Seq<RecommendationView>
    decreases s.len(),
{
    if s.len() == 0 {
        s
    } else {
        let t = ranked(s.drop_last());
        t.insert(priority_slot(t, s.last().priority), s.last())
    }
}

/// Priorities never decrease along the sequence.
pub open spec fn by_priority(s: Seq<RecommendationView>) -> bool {
    forall|i: int, j: int| 0 <= i < j < s.len() ==> s[i].priority <= s[j].priority
}

/// The slot splits a sorted sequence at the priority.
proof fn lemma_priority_slot(t: Seq<RecommendationView>, p: u8)
    requires
        by_priority(t),
    ensures
        0 <= priority_slot(t, p) <= t.len(),
        forall|i: int| 0 <= i < priority_slot(t, p) ==> t[i].priority <= p,
        forall|i: int| priority_slot(t, p) <= i < t.len() ==> t[i].priority > p,
    decreases t.len(),
{
    if t.len() > 0 {
        if p < t.last().priority {
            let d = t.drop_last();
            assert(by_priority(d)) by {
                assert forall|i: int, j: int| 0 <= i < j < d.len() implies d[i].priority <= d[j].priority by {
                    assert(d[i] == t[i] && d[j] == t[j]);
                }
            }
            lemma_priority_slot(d, p);
            assert forall|i: int| 0 <= i < t.len() - 1 implies d[i] == t[i] by {}
        } else {
            assert forall|i: int| 0 <= i < t.len() implies t[i].priority <= p by {
                if i < t.len() - 1 {
                    assert(t[i].priority <= t[t.len() - 1].priority);
                }
            }
        }
    }
}

/// Ranking orders recommendations by priority, most important (lowest)
/// first, and keeps exactly the recommendations it was given.
pub proof fn law_ranked_by_priority(s: Seq<RecommendationView>)
    ensures
        by_priority(ranked(s)),
        ranked(s).len() == s.len(),
        ranked(s).to_multiset() == s.to_multiset(),
    decreases s.len(),
{
    if s.len() > 0 {
        let t = ranked(s.drop_last());
        law_ranked_by_priority(s.drop_last());
        let p = s.last().priority;
        lemma_priority_slot(t, p);
        vstd::seq_lib::to_multiset_insert(t, priority_slot(t, p), s.last());
        vstd::seq_lib::to_multiset_build(s.drop_last(), s.last());
        assert(s.drop_last().push(s.last()) =~= s);
        let k = priority_slot(t, p);
        let u = t.insert(k, s.last());
        assert forall|i: int, j: int| 0 <= i < j < u.len() implies u[i].priority <= u[j].priority by {
            if j < k {
                assert(u[i] == t[i] && u[j] == t[j]);
            } else if j == k {
                assert(u[i] == t[i]);
            } else if i < k {
                assert(u[i] == t[i] && u[j] == t[j - 1]);
            } else if i == k {
                assert(u[j] == t[j - 1]);
            } else {
                assert(u[i] == t[i - 1] && u[j] == t[j - 1]);
            }
        }
    }
}

/// A copy of a recommendation.
fn copy_recommendation(r: &Recommendation) -> (c: Recommendation)
    ensures
        c@ == r@,
{
    Recommendation {
        defect: r.defect.clone(),
        parameter: r.parameter.clone(),
        current_value: r.current_value,
        recommended_value: r.recommended_value,
        priority: r.priority,
        rationale: r.rationale.clone(),
        was_clamped: r.was_clamped,
    }
}

/// Sorts recommendations by priority, stably.
fn rank(recs: &Vec<Recommendation>) -> (r: Vec<Recommendation>)
    ensures
        recs_view(r@) == ranked(recs_view(recs@)),
{
    let ghost u = recs_view(recs@);
    let mut sorted: Vec<Recommendation> = Vec::new();
    let mut j: usize = 0;
    while j < recs.len()
        invariant
            j <= recs.len(),
            u == recs_view(recs@),
            recs_view(sorted@) == ranked(u.take(j as int)),
        decreases recs.len() - j,
    {
        proof {
            assert(u.take(j + 1).drop_last() == u.take(j as int));
            assert(u.take(j + 1).last() == recs@[j as int]@);
        }
        let m = copy_recommendation(&recs[j]);
        let ghost sv = recs_view(sorted@);
        let mut p: usize = sorted.len();
        assert(sv.take(p as int) == sv);
        while p > 0 && m.priority < sorted[p - 1].priority
            invariant
                p <= sorted.len(),
                sv == recs_view(sorted@),
                priority_slot(sv, m.priority) == priority_slot(sv.take(p as int), m.priority),
            decreases p,
        {
            proof {
                assert(sv.take(p as int).last() == sv[p - 1]);
                assert(sv.take(p as int).drop_last() == sv.take(p - 1));
            }
            p = p - 1;
        }
        proof {
            if p > 0 {
                assert(sv.take(p as int).last() == sv[p - 1]);
            }
            assert(priority_slot(sv.take(p as int), m.priority) == p);
        }
        let ghost mv = m@;
        sorted.insert(p, m);
        proof {
            assert(recs_view(sorted@) =~= sv.insert(p as int, mv));
        }
        j = j + 1;
    }
    assert(u.take(recs.len() as int) == u);
    sorted
}

// ---------------------------------------------------------------------------
// Conflicts
// ---------------------------------------------------------------------------

/// The start of the description of opposite adjustments to a parameter.
pub const OPPOSED: &'static str = "Multiple defects require opposite adjustments to ";

/// Which way a recommendation moves its parameter: up or down by more than
/// a thousandth, else neither.
pub open spec fn direction(r: RecommendationView) -> int {
    let d = r.recommended - r.current;
    if d > 1 {
        1
    } else if d < -1 {
        -1
    } else {
        0
    }
}

/// The recommendations' parameters, each once, in order of first appearance.
pub open spec fn distinct_parameters(recs: Seq<RecommendationView>) -> Seq<Seq<char>>
    decreases recs.len(),
{
    if recs.len() == 0 {
        Seq::empty()
    } else {
        let t = distinct_parameters(recs.drop_last());
        if t.contains(recs.last().parameter) {
            t
        } else {
            t.push(recs.last().parameter)
        }
    }
}

/// The defects of the recommendations for a parameter, in order.
pub open spec fn defects_for(recs: Seq<RecommendationView>, p: Seq<char>) -> Seq<Seq<char>>
    decreases recs.len(),
{
    if recs.len() == 0 {
        Seq::empty()
    } else {
        let t = defects_for(recs.drop_last(), p);
        if recs.last().parameter == p {
            t.push(recs.last().defect)
        } else {
            t
        }
    }
}

/// Some recommendation moves the parameter in the direction.
pub open spec fn moves(recs: Seq<RecommendationView>, p: Seq<char>, dir: int) -> bool {
    exists|i: int| 0 <= i < recs.len() && recs[i].parameter == p && direction(#[trigger] recs[i]) == dir
}

/// A conflict for each of the parameters (in their order) that some
/// recommendations raise and others lower.
pub open spec fn opposed_conflicts(recs: Seq<RecommendationView>, ps: Seq<Seq<char>>) -> Seq<ConflictView>
    decreases ps.len(),
{
    if ps.len() == 0 {
        Seq::empty()
    } else {
        let p = ps.last();
        opposed_conflicts(recs, ps.drop_last()) + if moves(recs, p, 1) && moves(recs, p, -1) {
            seq![ConflictView { parameter: p, defects: defects_for(recs, p), description: OPPOSED@ + p }]
        } else {
            Seq::empty()
        }
    }
}

/// The defects of the recommendations for any of the parameters, each once,
/// in order of first appearance.
pub open spec fn affected_defects(recs: Seq<RecommendationView>, params: Seq<Seq<char>>) -> Seq<Seq<char>>
    decreases recs.len(),
{
    if recs.len() == 0 {
        Seq::empty()
    } else {
        let t = affected_defects(recs.drop_last(), params);
        if params.contains(recs.last().parameter) && !t.contains(recs.last().defect) {
            t.push(recs.last().defect)
        } else {
            t
        }
    }
}

/// A conflict for each definition (in order) whose parameters are adjusted
/// for more than one defect.
pub open spec fn defined_conflicts(recs: Seq<RecommendationView>, defs: Seq<ConflictDefView>) -> Seq<ConflictView>
    decreases defs.len(),
{
    if defs.len() == 0 {
        Seq::empty()
    } else {
        let d = defs.last();
        let ds = affected_defects(recs, d.parameters);
        defined_conflicts(recs, defs.drop_last()) + if ds.len() > 1 {
            seq![ConflictView { parameter: join(d.parameters, ", "@), defects: ds, description: d.description }]
        } else {
            Seq::empty()
        }
    }
}

/// Drops each conflict whose parameter is that of the conflict kept before
/// it.
pub open spec fn dedup_parameters(s: Seq<ConflictView>) -> Seq<ConflictView>
    decreases s.len(),
{
    if s.len() == 0 {
        s
    } else {
        let t = dedup_parameters(s.drop_last());
        if t.len() > 0 && t.last().parameter == s.last().parameter {
            t
        } else {
            t.push(s.last())
        }
    }
}

/// The conflicts among ranked recommendations: opposite adjustments of one
/// parameter, then the configured conflicts, sorted by parameter (stably),
/// one per parameter.
pub open spec fn conflicts_of(recs: Seq<RecommendationView>, defs: Seq<ConflictDefView>) -> Seq<ConflictView> {
    dedup_parameters(
        stable_sorted(
            opposed_conflicts(recs, distinct_parameters(recs)) + defined_conflicts(recs, defs),
            |c: ConflictView| c.parameter,
        ),
    )
}

/// The views of some conflicts.
pub open spec fn conflicts_view(cs: Seq<Conflict>) -> Seq<ConflictView> {
    cs.map_values(|c: Conflict| c@)
}

/// The views of some strings.
pub open spec fn strings_view(v: Seq<String>) -> Seq<Seq<char>> {
    v.map_values(|s: String| s@)
}

/// The views of some character vectors.
pub open spec fn chars_view(v: Seq<Vec<char>>) -> Seq<Seq<char>> {
    v.map_values(|s: Vec<char>| s@)
}

/// Whether a list of character vectors holds `k`.
fn holds(s: &Vec<Vec<char>>, k: &Vec<char>) -> (b: bool)
    ensures
        b == chars_view(s@).contains(k@),
{
    let ghost sv = chars_view(s@);
    let mut i: usize = 0;
    while i < s.len()
        invariant
            i <= s.len(),
            sv == chars_view(s@),
            forall|j: int| 0 <= j < i ==> sv[j] != k@,
        decreases s.len() - i,
    {
        if chars_eq(&s[i], k) {
            assert(sv[i as int] == k@);
            return true;
        }
        i = i + 1;
    }
    false
}

/// The recommendations' parameters, each once, in order of first
/// appearance.
fn parameters_of(recs: &Vec<Recommendation>) -> (r: Vec<Vec<char>>)
    ensures
        chars_view(r@) == distinct_parameters(recs_view(recs@)),
{
    let ghost rv = recs_view(recs@);
    let mut out: Vec<Vec<char>> = Vec::new();
    let mut i: usize = 0;
    while i < recs.len()
        invariant
            i <= recs.len(),
            rv == recs_view(recs@),
            chars_view(out@) == distinct_parameters(rv.take(i as int)),
        decreases recs.len() - i,
    {
        proof {
            assert(rv.take(i + 1).drop_last() == rv.take(i as int));
            assert(rv.take(i + 1).last() == recs@[i as int]@);
        }
        let p = chars_of(recs[i].parameter.as_str());
        if !holds(&out, &p) {
            let ghost before = chars_view(out@);
            out.push(p);
            assert(chars_view(out@) == before.push(recs@[i as int].parameter@));
        }
        i = i + 1;
    }
    assert(rv.take(recs.len() as int) == rv);
    out
}

/// The direction of a recommendation.
fn direction_of(r: &Recommendation) -> (d: i8)
    ensures
        d as int == direction(r@),
{
    let delta: i128 = r.recommended_value as i128 - r.current_value as i128;
    if delta > 1 {
        1
    } else if delta < -1 {
        -1
    } else {
        0
    }
}

/// The defects of the recommendations for a parameter, and whether some of
/// them raise it and some lower it.
fn scan_parameter(recs: &Vec<Recommendation>, p: &Vec<char>) -> (r: (Vec<String>, bool, bool))
    ensures
        strings_view(r.0@) == defects_for(recs_view(recs@), p@),
        r.1 == moves(recs_view(recs@), p@, 1),
        r.2 == moves(recs_view(recs@), p@, -1),
{
    let ghost rv = recs_view(recs@);
    let mut ds: Vec<String> = Vec::new();
    let mut up = false;
    let mut down = false;
    let mut i: usize = 0;
    while i < recs.len()
        invariant
            i <= recs.len(),
            rv == recs_view(recs@),
            strings_view(ds@) == defects_for(rv.take(i as int), p@),
            up == moves(rv.take(i as int), p@, 1),
            down == moves(rv.take(i as int), p@, -1),
        decreases recs.len() - i,
    {
        let ghost t = rv.take(i as int);
        let ghost t1 = rv.take(i + 1);
        proof {
            assert(t1.drop_last() == t);
            assert(t1.last() == recs@[i as int]@);
            assert forall|j: int| 0 <= j < i implies t1[j] == #[trigger] t[j] by {}
        }
        if chars_eq(&chars_of(recs[i].parameter.as_str()), p) {
            let ghost before = strings_view(ds@);
            ds.push(recs[i].defect.clone());
            assert(strings_view(ds@) == before.push(recs@[i as int].defect@));
            let d = direction_of(&recs[i]);
            proof {
                if moves(t1, p@, 1) && !moves(t, p@, 1) {
                    let j = choose|j: int| 0 <= j < t1.len() && t1[j].parameter == p@ && direction(#[trigger] t1[j]) == 1;
                    assert(j == i);
                }
                if moves(t1, p@, -1) && !moves(t, p@, -1) {
                    let j = choose|j: int| 0 <= j < t1.len() && t1[j].parameter == p@ && direction(#[trigger] t1[j]) == -1;
                    assert(j == i);
                }
                if moves(t, p@, 1) {
                    let j = choose|j: int| 0 <= j < t.len() && t[j].parameter == p@ && direction(#[trigger] t[j]) == 1;
                    assert(t1[j] == t[j]);
                }
                if moves(t, p@, -1) {
                    let j = choose|j: int| 0 <= j < t.len() && t[j].parameter == p@ && direction(#[trigger] t[j]) == -1;
                    assert(t1[j] == t[j]);
                }
                if d == 1 {
                    assert(t1[i as int].parameter == p@ && direction(t1[i as int]) == 1);
                }
                if d == -1 {
                    assert(t1[i as int].parameter == p@ && direction(t1[i as int]) == -1);
                }
            }
            if d == 1 {
                up = true;
            } else if d == -1 {
                down = true;
            }
        } else {
            proof {
                if moves(t1, p@, 1) {
                    let j = choose|j: int| 0 <= j < t1.len() && t1[j].parameter == p@ && direction(#[trigger] t1[j]) == 1;
                    assert(j != i);
                    assert(t[j] == t1[j]);
                }
                if moves(t1, p@, -1) {
                    let j = choose|j: int| 0 <= j < t1.len() && t1[j].parameter == p@ && direction(#[trigger] t1[j]) == -1;
                    assert(j != i);
                    assert(t[j] == t1[j]);
                }
                if moves(t, p@, 1) {
                    let j = choose|j: int| 0 <= j < t.len() && t[j].parameter == p@ && direction(#[trigger] t[j]) == 1;
                    assert(t1[j] == t[j]);
                }
                if moves(t, p@, -1) {
                    let j = choose|j: int| 0 <= j < t.len() && t[j].parameter == p@ && direction(#[trigger] t[j]) == -1;
                    assert(t1[j] == t[j]);
                }
            }
        }
        i = i + 1;
    }
    assert(rv.take(recs.len() as int) == rv);
    (ds, up, down)
}

/// Appends a conflict for each parameter that some recommendations raise
/// and others lower.
fn push_opposed(out: &mut Vec<Conflict>, recs: &Vec<Recommendation>)
    ensures
        conflicts_view(final(out)@) == conflicts_view(old(out)@) + opposed_conflicts(
            recs_view(recs@),
            distinct_parameters(recs_view(recs@)),
        ),
{
    let ghost rv = recs_view(recs@);
    let ghost start = conflicts_view(out@);
    let ps = parameters_of(recs);
    let ghost pv = chars_view(ps@);
    let mut i: usize = 0;
    while i < ps.len()
        invariant
            i <= ps.len(),
            rv == recs_view(recs@),
            pv == chars_view(ps@),
            pv == distinct_parameters(rv),
            conflicts_view(out@) == start + opposed_conflicts(rv, pv.take(i as int)),
        decreases ps.len() - i,
    {
        proof {
            assert(pv.take(i + 1).drop_last() == pv.take(i as int));
            assert(pv.take(i + 1).last() == ps@[i as int]@);
        }
        let (ds, up, down) = scan_parameter(recs, &ps[i]);
        if up && down {
            let mut d: Vec<char> = Vec::new();
            push_str(&mut d, OPPOSED);
            crate::text::push_all(&mut d, &ps[i]);
            let c = Conflict { parameter: string_of(&ps[i]), conflicting_defects: ds, description: string_of(&d) };
            let ghost before = conflicts_view(out@);
            out.push(c);
            assert(conflicts_view(out@) == before.push(c@));
            assert(seq![c@] == seq![ConflictView { parameter: pv[i as int], defects: defects_for(rv, pv[i as int]), description: OPPOSED@ + pv[i as int] }]);
            assert(before.push(c@) == before + seq![c@]);
        }
        i = i + 1;
    }
    assert(pv.take(ps.len() as int) == pv);
}

/// The defects of the recommendations for any of the parameters, each once,
/// in order of first appearance.
fn affected(recs: &Vec<Recommendation>, params: &Vec<Vec<char>>) -> (r: Vec<Vec<char>>)
    ensures
        chars_view(r@) == affected_defects(recs_view(recs@), chars_view(params@)),
{
    let ghost rv = recs_view(recs@);
    let mut out: Vec<Vec<char>> = Vec::new();
    let mut i: usize = 0;
    while i < recs.len()
        invariant
            i <= recs.len(),
            rv == recs_view(recs@),
            chars_view(out@) == affected_defects(rv.take(i as int), chars_view(params@)),
        decreases recs.len() - i,
    {
        proof {
            assert(rv.take(i + 1).drop_last() == rv.take(i as int));
            assert(rv.take(i + 1).last() == recs@[i as int]@);
        }
        let d = chars_of(recs[i].defect.as_str());
        if holds(params, &chars_of(recs[i].parameter.as_str())) && !holds(&out, &d) {
            let ghost before = chars_view(out@);
            out.push(d);
            assert(chars_view(out@) == before.push(recs@[i as int].defect@));
        }
        i = i + 1;
    }
    assert(rv.take(recs.len() as int) == rv);
    out
}

/// Appends a conflict for each definition whose parameters are adjusted for
/// more than one defect.
fn push_defined(out: &mut Vec<Conflict>, recs: &Vec<Recommendation>, defs: &Vec<ConflictDef>)
    ensures
        conflicts_view(final(out)@) == conflicts_view(old(out)@) + defined_conflicts(
            recs_view(recs@),
            defs@.map_values(|c: ConflictDef| c@),
        ),
{
    let ghost rv = recs_view(recs@);
    let ghost dv = defs@.map_values(|c: ConflictDef| c@);
    let ghost start = conflicts_view(out@);
    let mut i: usize = 0;
    while i < defs.len()
        invariant
            i <= defs.len(),
            rv == recs_view(recs@),
            dv == defs@.map_values(|c: ConflictDef| c@),
            conflicts_view(out@) == start + defined_conflicts(rv, dv.take(i as int)),
        decreases defs.len() - i,
    {
        proof {
            assert(dv.take(i + 1).drop_last() == dv.take(i as int));
            assert(dv.take(i + 1).last() == defs@[i as int]@);
        }
        let def = &defs[i];
        let mut params: Vec<Vec<char>> = Vec::new();
        let mut k: usize = 0;
        while k < def.parameters.len()
            invariant
                k <= def.parameters.len(),
                chars_view(params@) == strings_view(def.parameters@).take(k as int),
            decreases def.parameters.len() - k,
        {
            let ghost before = chars_view(params@);
            params.push(chars_of(def.parameters[k].as_str()));
            assert(chars_view(params@) == before.push(def.parameters@[k as int]@));
            assert(strings_view(def.parameters@).take(k + 1) == strings_view(def.parameters@).take(k as int).push(
                def.parameters@[k as int]@,
            ));
            k = k + 1;
        }
        assert(strings_view(def.parameters@).take(def.parameters.len() as int) == strings_view(def.parameters@));
        assert(chars_view(params@) == def@.parameters);
        let ds = affected(recs, &params);
        if ds.len() > 1 {
            let mut names: Vec<String> = Vec::new();
            let mut k: usize = 0;
            while k < ds.len()
                invariant
                    k <= ds.len(),
                    strings_view(names@) == chars_view(ds@).take(k as int),
                decreases ds.len() - k,
            {
                let ghost before = strings_view(names@);
                names.push(string_of(&ds[k]));
                assert(strings_view(names@) == before.push(ds@[k as int]@));
                assert(chars_view(ds@).take(k + 1) == chars_view(ds@).take(k as int).push(ds@[k as int]@));
                k = k + 1;
            }
            assert(chars_view(ds@).take(ds.len() as int) == chars_view(ds@));
            let sep = chars_of(", ");
            let joined = join_with(&params, &sep);
            let c = Conflict {
                parameter: string_of(&joined),
                conflicting_defects: names,
                description: def.description.clone(),
            };
            let ghost before = conflicts_view(out@);
            out.push(c);
            assert(conflicts_view(out@) == before.push(c@));
            assert(before.push(c@) == before + seq![c@]);
        }
        i = i + 1;
    }
    assert(dv.take(defs.len() as int) == dv);
}

/// Sorts conflicts by parameter (stably) and keeps one per parameter.
fn sort_and_dedup(candidates: Vec<Conflict>) -> (r: Vec<Conflict>)
    ensures
        conflicts_view(r@) == dedup_parameters(
            stable_sorted(conflicts_view(candidates@), |c: ConflictView| c.parameter),
        ),
{
    let ghost u = conflicts_view(candidates@);
    assert(u.skip(0) == u);
    assert(u.len() == candidates.len());
    let ghost keyf = |c: ConflictView| c.parameter;
    let mut rest = candidates;
    let mut sorted: Vec<Conflict> = Vec::new();
    let mut keys: Vec<Vec<char>> = Vec::new();
    let mut j: usize = 0;
    while rest.len() > 0
        invariant
            j <= u.len(),
            j + rest.len() == u.len(),
            u.len() <= usize::MAX,
            conflicts_view(rest@) == u.skip(j as int),
            conflicts_view(sorted@) == stable_sorted(u.take(j as int), keyf),
            chars_view(keys@) == conflicts_view(sorted@).map_values(keyf),
            keyf == (|c: ConflictView| c.parameter),
        decreases rest.len(),
    {
        let ghost rv = conflicts_view(rest@);
        let m = rest.remove(0);
        proof {
            assert(rv[0] == m@);
            assert(conflicts_view(rest@) =~= rv.drop_first());
            assert(u.skip(j as int)[0] == u[j as int]);
            assert(u.skip(j as int).drop_first() =~= u.skip(j + 1));
            assert(u.take(j + 1).drop_last() == u.take(j as int));
            assert(u.take(j + 1).last() == u[j as int]);
        }
        let k = chars_of(m.parameter.as_str());
        let ghost sv = conflicts_view(sorted@);
        let ghost kv = chars_view(keys@);
        let mut p: usize = sorted.len();
        assert(kv.take(p as int) == kv);
        while p > 0 && text_less(&k, &keys[p - 1])
            invariant
                p <= keys.len(),
                keys.len() == sorted.len(),
                kv == chars_view(keys@),
                key_slot(kv, k@) == key_slot(kv.take(p as int), k@),
            decreases p,
        {
            proof {
                assert(kv.take(p as int).last() == kv[p - 1]);
                assert(kv.take(p as int).drop_last() == kv.take(p - 1));
            }
            p = p - 1;
        }
        proof {
            if p > 0 {
                assert(kv.take(p as int).last() == kv[p - 1]);
            }
            assert(key_slot(kv.take(p as int), k@) == p);
            assert(k@ == keyf(m@));
            assert(kv == sv.map_values(keyf));
        }
        let ghost kk = k@;
        let ghost mm = m@;
        sorted.insert(p, m);
        keys.insert(p, k);
        proof {
            assert(conflicts_view(sorted@) =~= sv.insert(p as int, mm));
            assert(chars_view(keys@) =~= kv.insert(p as int, kk));
            assert(sv.insert(p as int, mm).map_values(keyf) =~= kv.insert(p as int, kk));
        }
        j = j + 1;
    }
    assert(u.take(j as int) == u);
    let ghost st = conflicts_view(sorted@);
    assert(st.skip(0) == st);
    assert(st.len() == sorted.len());
    let mut out: Vec<Conflict> = Vec::new();
    let mut last: Vec<char> = Vec::new();
    let mut i: usize = 0;
    while sorted.len() > 0
        invariant
            i <= st.len(),
            i + sorted.len() == st.len(),
            st.len() <= usize::MAX,
            conflicts_view(sorted@) == st.skip(i as int),
            conflicts_view(out@) == dedup_parameters(st.take(i as int)),
            out.len() > 0 ==> last@ == conflicts_view(out@).last().parameter,
        decreases sorted.len(),
    {
        let ghost rv = conflicts_view(sorted@);
        let c = sorted.remove(0);
        proof {
            assert(rv[0] == c@);
            assert(conflicts_view(sorted@) =~= rv.drop_first());
            assert(st.skip(i as int)[0] == st[i as int]);
            assert(st.skip(i as int).drop_first() =~= st.skip(i + 1));
            assert(st.take(i + 1).drop_last() == st.take(i as int));
            assert(st.take(i + 1).last() == st[i as int]);
        }
        let k = chars_of(c.parameter.as_str());
        if out.len() == 0 || !chars_eq(&last, &k) {
            let ghost before = conflicts_view(out@);
            out.push(c);
            assert(conflicts_view(out@) == before.push(st[i as int]));
            last = k;
        }
        i = i + 1;
    }
    assert(st.take(i as int) == st);
    out
}

/// The rule engine, over its rule configuration.
pub struct RuleEngine {
    rules: RulesConfig,
}

/// The position of the first defect type `key` among the entries, if any.
pub open spec fn defect_index(keys: Seq<Seq<char>>, key: Seq<char>) -> Option<int>
    decreases keys.len(),
{
    if keys.len() == 0 {
        None
    } else {
        match defect_index(keys.drop_last(), key) {
            Some(i) => Some(i),
            None => if keys.last() == key {
                Some(keys.len() - 1)
            } else {
                None
            },
        }
    }
}

impl RuleEngine {
    /// The defect type identifiers, in configuration order.
    pub closed spec fn keys(&self) -> Seq<Seq<char>> {
        self.rules.defects@.map_values(|e: (String, DefectInfo)| e.0@)
    }

    /// The display information of the `i`-th defect type.
    pub closed spec fn info_at(&self, i: int) -> DefectInfo {
        self.rules.defects@[i].1
    }

    /// The rules, in configuration order.
    pub closed spec fn rule_views(&self) -> Seq<RuleView> {
        self.rules.rules@.map_values(|r: Rule| r@)
    }

    /// The conflict definitions, in configuration order.
    pub closed spec fn conflict_defs(&self) -> Seq<ConflictDefView> {
        self.rules.conflicts@.map_values(|c: ConflictDef| c@)
    }

    /// Each defect type is configured once.
    #[verifier::type_invariant]
    spec fn keys_distinct(self) -> bool {
        self.keys().no_duplicates()
    }

    /// Creates an engine over a rule configuration whose defect types are
    /// distinct (the configuration maps each type to its information).
    pub fn new(rules: RulesConfig) -> (r: RuleEngine)
        requires
            rules.defects@.map_values(|e: (String, DefectInfo)| e.0@).no_duplicates(),
        ensures
            r.keys() == rules.defects@.map_values(|e: (String, DefectInfo)| e.0@),
            forall|i: int| 0 <= i < rules.defects@.len() ==> r.info_at(i) == rules.defects@[i].1,
            r.rule_views() == rules.rules@.map_values(|x: Rule| x@),
            r.conflict_defs() == rules.conflicts@.map_values(|c: ConflictDef| c@),
    {
        RuleEngine { rules }
    }

    /// Evaluates detected defects against the rules: for each defect, each
    /// rule that applies to it, each of its adjustments, a recommendation
    /// from the current value (see `recommendation`), clamped to the
    /// material's safe range; ranked by priority (stably); with the conflicts
    /// among them (see `conflicts_of`). Values are in thousandths.
    pub fn evaluate(
        &self,
        defects: &Vec<DetectedDefect>,
        current_values: &Vec<(String, i64)>,
        material: &MaterialType,
    ) -> (r: EvaluationResult)
        requires
            within_limits(
                defects@.map_values(|d: DetectedDefect| d@),
                self.rule_views(),
                values_view(current_values@),
            ),
        ensures
            recs_view(r.recommendations@) == ranked(
                candidate_recs(
                    defects@.map_values(|d: DetectedDefect| d@),
                    self.rule_views(),
                    values_view(current_values@),
                    *material,
                ),
            ),
            conflicts_view(r.conflicts@) == conflicts_of(recs_view(r.recommendations@), self.conflict_defs()),
            forall|i: int|
                0 <= i < r.recommendations@.len() ==> within_material_bounds(
                    #[trigger] recs_view(r.recommendations@)[i],
                    *material,
                ),
    {
        let ghost dv = defects@.map_values(|d: DetectedDefect| d@);
        let ghost rules = self.rule_views();
        let ghost vv = values_view(current_values@);
        proof {
            assert forall|i: int, j: int|
                0 <= i < self.rules.rules.len() && 0 <= j < self.rules.rules@[i].adjustments.len() implies -SCALE_LIMIT
                    <= #[trigger] self.rules.rules@[i].adjustments@[j].amount <= SCALE_LIMIT by {
                assert(rules[i].adjustments[j].amount == self.rules.rules@[i].adjustments@[j].amount);
            }
            assert forall|i: int| 0 <= i < current_values.len() implies -VALUE_LIMIT
                <= #[trigger] current_values@[i].1 <= VALUE_LIMIT by {
                assert(vv[i].1 == current_values@[i].1);
            }
        }
        let mut raw: Vec<Recommendation> = Vec::new();
        let mut i: usize = 0;
        while i < defects.len()
            invariant
                i <= defects.len(),
                dv == defects@.map_values(|d: DetectedDefect| d@),
                rules == self.rule_views(),
                vv == values_view(current_values@),
                within_limits(dv, rules, vv),
                forall|i: int, j: int|
                    0 <= i < self.rules.rules.len() && 0 <= j < self.rules.rules@[i].adjustments.len() ==> -SCALE_LIMIT
                        <= #[trigger] self.rules.rules@[i].adjustments@[j].amount <= SCALE_LIMIT,
                forall|i: int| 0 <= i < current_values.len() ==> -VALUE_LIMIT <= #[trigger] current_values@[i].1 <= VALUE_LIMIT,
                recs_view(raw@) == candidate_recs(dv.take(i as int), rules, vv, *material),
            decreases defects.len() - i,
        {
            proof {
                assert(dv.take(i + 1).drop_last() == dv.take(i as int));
                assert(dv.take(i + 1).last() == defects@[i as int]@);
                assert(dv[i as int].severity == defects@[i as int].severity);
            }
            push_rule_recs(&mut raw, &defects[i], &self.rules.rules, current_values, material);
            i = i + 1;
        }
        assert(dv.take(defects.len() as int) == dv);
        let recommendations = rank(&raw);
        proof {
            law_recommendations_within_material_bounds(dv, rules, vv, *material);
        }
        let mut candidates: Vec<Conflict> = Vec::new();
        push_opposed(&mut candidates, &recommendations);
        push_defined(&mut candidates, &recommendations, &self.rules.conflicts);
        let conflicts = sort_and_dedup(candidates);
        EvaluationResult { recommendations, conflicts }
    }

    /// The display information of a defect type, if it is known.
    pub fn get_defect_info(&self, defect_type: &str) -> (r: Option<&DefectInfo>)
        ensures
            match defect_index(self.keys(), defect_type@) {
                Some(i) => r matches Some(d) && *d == self.info_at(i),
                None => r is None,
            },
            forall|i: int|
                0 <= i < self.keys().len() && #[trigger] self.keys()[i] == defect_type@ ==> (r matches Some(d)
                    && *d == self.info_at(i)),
    {
        let k = chars_of(defect_type);
        let ghost ks = self.keys();
        let mut i: usize = 0;
        while i < self.rules.defects.len()
            invariant
                i <= self.rules.defects.len(),
                ks == self.keys(),
                k@ == defect_type@,
                defect_index(ks.take(i as int), k@) is None,
            decreases self.rules.defects.len() - i,
        {
            proof {
                assert(ks.take(i + 1).drop_last() == ks.take(i as int));
                assert(ks.take(i + 1).last() == ks[i as int]);
            }
            if chars_eq(&chars_of(self.rules.defects[i].0.as_str()), &k) {
                proof {
                    lemma_defect_index_prefix(ks, (i + 1) as int, k@);
                    use_type_invariant(self);
                    assert forall|j: int| 0 <= j < ks.len() && #[trigger] ks[j] == k@ implies j == i by {
                        lemma_defect_index_distinct(ks, j);
                    }
                }
                return Some(&self.rules.defects[i].1);
            }
            i = i + 1;
        }
        assert(ks.take(self.rules.defects.len() as int) == ks);
        proof {
            use_type_invariant(self);
            assert forall|j: int| 0 <= j < ks.len() implies #[trigger] ks[j] != k@ by {
                lemma_defect_index_distinct(ks, j);
            }
        }
        None
    }

    /// The identifiers of all known defect types, in configuration order.
    pub fn known_defect_types(&self) -> (r: Vec<&str>)
        ensures
            r@.map_values(|s: &str| s@) == self.keys(),
            r@.map_values(|s: &str| s@).no_duplicates(),
    {
        proof {
            use_type_invariant(self);
        }
        let ghost ks = self.keys();
        let mut out: Vec<&str> = Vec::new();
        let mut i: usize = 0;
        while i < self.rules.defects.len()
            invariant
                i <= self.rules.defects.len(),
                ks == self.keys(),
                out@.map_values(|s: &str| s@) == ks.take(i as int),
            decreases self.rules.defects.len() - i,
        {
            let ghost before = out@.map_values(|s: &str| s@);
            out.push(self.rules.defects[i].0.as_str());
            proof {
                assert(out@.map_values(|s: &str| s@) == before.push(ks[i as int]));
                assert(ks.take(i + 1) == ks.take(i as int).push(ks[i as int]));
            }
            i = i + 1;
        }
        assert(ks.take(self.rules.defects.len() as int) == ks);
        out
    }
}

/// The position found for a defect type holds that type.
proof fn lemma_defect_index_found(keys: Seq<Seq<char>>, key: Seq<char>)
    ensures
        defect_index(keys, key) matches Some(j) ==> 0 <= j < keys.len() && keys[j] == key,
    decreases keys.len(),
{
    if keys.len() > 0 {
        lemma_defect_index_found(keys.drop_last(), key);
    }
}

/// Among distinct defect types, each is found at its own position.
proof fn lemma_defect_index_distinct(keys: Seq<Seq<char>>, i: int)
    requires
        keys.no_duplicates(),
        0 <= i < keys.len(),
    ensures
        defect_index(keys, keys[i]) == Some(i),
    decreases keys.len(),
{
    let d = keys.drop_last();
    if i == keys.len() - 1 {
        lemma_defect_index_found(d, keys[i]);
        if let Some(j) = defect_index(d, keys[i]) {
            assert(d[j] == keys[j]);
            assert(false);
        }
    } else {
        assert(d.no_duplicates()) by {
            assert forall|a: int, b: int| 0 <= a < d.len() && 0 <= b < d.len() && a != b implies d[a] != d[b] by {
                assert(d[a] == keys[a] && d[b] == keys[b]);
            }
        }
        assert(d[i] == keys[i]);
        lemma_defect_index_distinct(d, i);
    }
}

/// A match in a prefix is the first match of the whole sequence.
proof fn lemma_defect_index_prefix(keys: Seq<Seq<char>>, n: int, key: Seq<char>)
    requires
        0 < n <= keys.len(),
        defect_index(keys.take(n - 1), key) is None,
        keys[n - 1] == key,
    ensures
        defect_index(keys, key) == Some(n - 1),
    decreases keys.len(),
{
    assert(keys.take(n).drop_last() == keys.take(n - 1));
    assert(defect_index(keys.take(n), key) == Some(n - 1));
    if keys.len() > n {
        assert(keys.drop_last().take(n - 1) == keys.take(n - 1));
        assert(keys.drop_last()[n - 1] == keys[n - 1]);
        lemma_defect_index_prefix(keys.drop_last(), n, key);
    } else {
        assert(keys.take(n) == keys);
    }
}

/// A recommendation for a parameter with a material-safe range stays inside
/// that range, whatever the defect, adjustment and current value.
pub proof fn law_recommendation_in_safe_range(
    d: DefectView,
    a: AdjustmentView,
    values: Seq<(Seq<char>, i64)>,
    material: MaterialType,
)
    ensures
        match safe_range(a.parameter, material) {
            Some((lo, hi)) => lo <= recommendation(d, a, values, material).recommended <= hi,
            None => true,
        },
{
    let t = constraint_table(material.tag());
    assert(t.0 <= t.1 && t.2 <= t.3);
}

/// Every recommendation stays inside the bounds its parameter has for the
/// material: nozzle temperatures and bed (plate) temperatures within the
/// material's constraint table, in thousandths of a degree; the retraction
/// length within 0 to 15 mm, the retraction speed within 10 to 100 mm/s,
/// the flow ratio within 0.85 to 1.15, fan speeds within 0 to 100 % and the
/// pressure advance within 0 to 0.1.
pub open spec fn within_material_bounds(r: RecommendationView, material: MaterialType) -> bool {
    let c = constraint_table(material.tag());
    let p = r.parameter;
    let v = r.recommended;
    &&& (p == "nozzle_temperature"@ || p == "nozzle_temperature_initial_layer"@) ==> c.0 * 1000 <= v <= c.1 * 1000
    &&& (p == "hot_plate_temp"@ || p == "cool_plate_temp"@ || p == "textured_plate_temp"@) ==> c.2 * 1000 <= v
        <= c.3 * 1000
    &&& p == "filament_retraction_length"@ ==> 0 <= v <= 15000
    &&& p == "filament_retraction_speed"@ ==> 10000 <= v <= 100000
    &&& p == "filament_flow_ratio"@ ==> 850 <= v <= 1150
    &&& (p == "fan_min_speed"@ || p == "fan_max_speed"@ || p == "overhang_fan_speed"@) ==> 0 <= v <= 100000
    &&& p == "pressure_advance"@ ==> 0 <= v <= 100
}

proof fn lemma_recommendation_bounded(d: DefectView, a: AdjustmentView, values: Seq<(Seq<char>, i64)>, material: MaterialType)
    ensures
        within_material_bounds(recommendation(d, a, values, material), material),
{
    let t = constraint_table(material.tag());
    assert(t.0 <= t.1 && t.2 <= t.3);
    reveal_strlit("nozzle_temperature");
    reveal_strlit("nozzle_temperature_initial_layer");
    reveal_strlit("cool_plate_temp");
    reveal_strlit("hot_plate_temp");
    reveal_strlit("textured_plate_temp");
    reveal_strlit("filament_retraction_length");
    reveal_strlit("filament_retraction_speed");
    reveal_strlit("filament_flow_ratio");
    reveal_strlit("fan_min_speed");
    reveal_strlit("fan_max_speed");
    reveal_strlit("overhang_fan_speed");
    reveal_strlit("pressure_advance");
    assert("nozzle_temperature"@.len() == 18);
    assert("nozzle_temperature_initial_layer"@.len() == 32);
    assert("cool_plate_temp"@.len() == 15);
    assert("hot_plate_temp"@.len() == 14);
    assert("textured_plate_temp"@.len() == 19);
    assert("filament_retraction_length"@.len() == 26);
    assert("filament_retraction_speed"@.len() == 25);
    assert("filament_flow_ratio"@.len() == 19);
    assert("fan_min_speed"@.len() == 13);
    assert("fan_max_speed"@.len() == 13);
    assert("overhang_fan_speed"@.len() == 18);
    assert("pressure_advance"@.len() == 16);
    assert("textured_plate_temp"@[0] != "filament_flow_ratio"@[0]);
    assert("nozzle_temperature"@[0] != "overhang_fan_speed"@[0]);
    assert("fan_min_speed"@[5] != "fan_max_speed"@[5]);
    law_recommendation_in_safe_range(d, a, values, material);
}

/// A recommendation moves the current value by the adjustment's change and
/// is clamped only when that target lies outside its parameter's material
/// bounds: `was_clamped` says exactly whether the recommended value differs
/// from the target, and a target inside the bounds is recommended as it is.
pub proof fn law_clamped_only_out_of_bounds(
    d: DefectView,
    a: AdjustmentView,
    values: Seq<(Seq<char>, i64)>,
    material: MaterialType,
)
    ensures
        ({
            let r = recommendation(d, a, values, material);
            let target = r.current + change(a.operation, a.amount, d.severity, r.current);
            &&& r.current == current_of(values, a.parameter)
            &&& r.parameter == a.parameter
            &&& (r.was_clamped <==> r.recommended != target)
            &&& (within_material_bounds(RecommendationView { recommended: target, ..r }, material) ==> r.recommended
                == target)
        }),
{
    reveal_strlit("nozzle_temperature");
    reveal_strlit("nozzle_temperature_initial_layer");
    reveal_strlit("cool_plate_temp");
    reveal_strlit("hot_plate_temp");
    reveal_strlit("textured_plate_temp");
    reveal_strlit("filament_retraction_length");
    reveal_strlit("filament_retraction_speed");
    reveal_strlit("filament_flow_ratio");
    reveal_strlit("fan_min_speed");
    reveal_strlit("fan_max_speed");
    reveal_strlit("overhang_fan_speed");
    reveal_strlit("pressure_advance");
    assert("nozzle_temperature"@.len() == 18);
    assert("nozzle_temperature_initial_layer"@.len() == 32);
    assert("cool_plate_temp"@.len() == 15);
    assert("hot_plate_temp"@.len() == 14);
    assert("textured_plate_temp"@.len() == 19);
    assert("filament_retraction_length"@.len() == 26);
    assert("filament_retraction_speed"@.len() == 25);
    assert("filament_flow_ratio"@.len() == 19);
    assert("fan_min_speed"@.len() == 13);
    assert("fan_max_speed"@.len() == 13);
    assert("overhang_fan_speed"@.len() == 18);
    assert("pressure_advance"@.len() == 16);
    assert("textured_plate_temp"@[0] != "filament_flow_ratio"@[0]);
    assert("nozzle_temperature"@[0] != "overhang_fan_speed"@[0]);
    assert("fan_min_speed"@[5] != "fan_max_speed"@[5]);
}

proof fn lemma_adjustment_recs_bounded(
    d: DefectView,
    adjs: Seq<AdjustmentView>,
    values: Seq<(Seq<char>, i64)>,
    material: MaterialType,
)
    ensures
        forall|i: int|
            0 <= i < adjustment_recs(d, adjs, values, material).len() ==> within_material_bounds(
                #[trigger] adjustment_recs(d, adjs, values, material)[i],
                material,
            ),
    decreases adjs.len(),
{
    if adjs.len() > 0 {
        lemma_adjustment_recs_bounded(d, adjs.drop_last(), values, material);
        lemma_recommendation_bounded(d, adjs.last(), values, material);
        let t = adjustment_recs(d, adjs.drop_last(), values, material);
        assert forall|i: int| 0 <= i < t.len() + 1 implies within_material_bounds(
            #[trigger] t.push(recommendation(d, adjs.last(), values, material))[i],
            material,
        ) by {
            if i < t.len() {
                assert(t.push(recommendation(d, adjs.last(), values, material))[i] == t[i]);
            }
        }
    }
}

proof fn lemma_rule_recs_bounded(
    d: DefectView,
    rules: Seq<RuleView>,
    values: Seq<(Seq<char>, i64)>,
    material: MaterialType,
)
    ensures
        forall|i: int|
            0 <= i < rule_recs(d, rules, values, material).len() ==> within_material_bounds(
                #[trigger] rule_recs(d, rules, values, material)[i],
                material,
            ),
    decreases rules.len(),
{
    if rules.len() > 0 {
        lemma_rule_recs_bounded(d, rules.drop_last(), values, material);
        lemma_adjustment_recs_bounded(d, rules.last().adjustments, values, material);
        let a = rule_recs(d, rules.drop_last(), values, material);
        let b = if applies(rules.last(), d) {
            adjustment_recs(d, rules.last().adjustments, values, material)
        } else {
            Seq::empty()
        };
        assert forall|i: int| 0 <= i < a.len() + b.len() implies within_material_bounds(#[trigger] (a + b)[i], material) by {
            if i < a.len() {
                assert((a + b)[i] == a[i]);
            } else {
                assert((a + b)[i] == b[i - a.len()]);
            }
        }
    }
}

proof fn lemma_candidate_recs_bounded(
    defects: Seq<DefectView>,
    rules: Seq<RuleView>,
    values: Seq<(Seq<char>, i64)>,
    material: MaterialType,
)
    ensures
        forall|i: int|
            0 <= i < candidate_recs(defects, rules, values, material).len() ==> within_material_bounds(
                #[trigger] candidate_recs(defects, rules, values, material)[i],
                material,
            ),
    decreases defects.len(),
{
    if defects.len() > 0 {
        lemma_candidate_recs_bounded(defects.drop_last(), rules, values, material);
        lemma_rule_recs_bounded(defects.last(), rules, values, material);
        let a = candidate_recs(defects.drop_last(), rules, values, material);
        let b = rule_recs(defects.last(), rules, values, material);
        assert forall|i: int| 0 <= i < a.len() + b.len() implies within_material_bounds(#[trigger] (a + b)[i], material) by {
            if i < a.len() {
                assert((a + b)[i] == a[i]);
            } else {
                assert((a + b)[i] == b[i - a.len()]);
            }
        }
    }
}

/// Whatever the defects, rules and current values, every recommendation
/// the evaluation gives lies within its parameter's material bounds (see
/// `within_material_bounds`): for a bed temperature
/// (`hot_plate_temp`, `cool_plate_temp`, `textured_plate_temp`), between the
/// material's minimum and maximum bed temperature.
pub proof fn law_recommendations_within_material_bounds(
    defects: Seq<DefectView>,
    rules: Seq<RuleView>,
    values: Seq<(Seq<char>, i64)>,
    material: MaterialType,
)
    ensures
        forall|i: int|
            0 <= i < ranked(candidate_recs(defects, rules, values, material)).len() ==> within_material_bounds(
                #[trigger] ranked(candidate_recs(defects, rules, values, material))[i],
                material,
            ),
{
    let s = candidate_recs(defects, rules, values, material);
    lemma_candidate_recs_bounded(defects, rules, values, material);
    law_ranked_by_priority(s);
    assert forall|i: int| 0 <= i < ranked(s).len() implies within_material_bounds(#[trigger] ranked(s)[i], material) by {
        let x = ranked(s)[i];
        vstd::seq_lib::to_multiset_contains(ranked(s), x);
        assert(ranked(s).contains(x));
        vstd::seq_lib::to_multiset_contains(s, x);
        let j = choose|j: int| 0 <= j < s.len() && s[j] == x;
        assert(within_material_bounds(s[j], material));
    }
}

/// A text before another that is not after a third is before the third.
proof fn lemma_lt_le(a: Seq<char>, b: Seq<char>, c: Seq<char>)
    requires
        text_lt(a, b),
        !text_lt(c, b),
    ensures
        text_lt(a, c),
{
    if b != c {
        lemma_text_lt_total(b, c);
        lemma_text_lt_transitive(a, b, c);
    }
}

/// Keeping one of each run of equal parameters in conflicts sorted by
/// parameter leaves the parameters strictly increasing, the last one being
/// the last conflict's.
proof fn lemma_dedup_strict(s: Seq<ConflictView>)
    requires
        texts_sorted(s.map_values(|c: ConflictView| c.parameter)),
    ensures
        forall|i: int, j: int|
            0 <= i < j < dedup_parameters(s).len() ==> text_lt(
                dedup_parameters(s)[i].parameter,
                dedup_parameters(s)[j].parameter,
            ),
        s.len() > 0 ==> forall|i: int|
            0 <= i < dedup_parameters(s).len() ==> !text_lt(s.last().parameter, dedup_parameters(s)[i].parameter),
        s.len() > 0 ==> dedup_parameters(s).len() > 0 && dedup_parameters(s).last().parameter == s.last().parameter,
        s.len() == 0 ==> dedup_parameters(s).len() == 0,
    decreases s.len(),
{
    if s.len() > 0 {
        let d = s.drop_last();
        let ks = s.map_values(|c: ConflictView| c.parameter);
        assert(texts_sorted(d.map_values(|c: ConflictView| c.parameter))) by {
            let kd = d.map_values(|c: ConflictView| c.parameter);
            assert forall|i: int, j: int| 0 <= i < j < kd.len() implies !text_lt(kd[j], kd[i]) by {
                assert(kd[i] == ks[i] && kd[j] == ks[j]);
            }
        }
        lemma_dedup_strict(d);
        let t = dedup_parameters(d);
        let x = s.last();
        lemma_text_lt_irreflexive(x.parameter);
        if d.len() > 0 {
            assert(ks[d.len() - 1] == d.last().parameter && ks[s.len() - 1] == x.parameter);
            assert(!text_lt(x.parameter, d.last().parameter));
            assert forall|i: int| 0 <= i < t.len() implies !text_lt(x.parameter, t[i].parameter) by {
                lemma_text_le_transitive(t[i].parameter, d.last().parameter, x.parameter);
            }
        }
        if t.len() > 0 && t.last().parameter == x.parameter {
        } else {
            let u = t.push(x);
            assert(dedup_parameters(s) == u);
            assert forall|i: int, j: int| 0 <= i < j < u.len() implies text_lt(u[i].parameter, u[j].parameter) by {
                if j < t.len() {
                    assert(u[i] == t[i] && u[j] == t[j]);
                } else {
                    assert(u[j] == x && u[i] == t[i]);
                    let l = t.len() - 1;
                    lemma_text_lt_total(t[l].parameter, x.parameter);
                    if i < l {
                        lemma_lt_le(t[i].parameter, t[l].parameter, x.parameter);
                    }
                }
            }
            assert forall|i: int| 0 <= i < u.len() implies !text_lt(x.parameter, u[i].parameter) by {
                if i < t.len() {
                    assert(u[i] == t[i]);
                }
            }
        }
    }
}

/// The conflicts come out ordered by parameter, no parameter twice.
pub proof fn law_conflicts_by_parameter(recs: Seq<RecommendationView>, defs: Seq<ConflictDefView>)
    ensures
        forall|i: int, j: int|
            0 <= i < j < conflicts_of(recs, defs).len() ==> text_lt(
                conflicts_of(recs, defs)[i].parameter,
                conflicts_of(recs, defs)[j].parameter,
            ),
{
    let cand = opposed_conflicts(recs, distinct_parameters(recs)) + defined_conflicts(recs, defs);
    let key = |c: ConflictView| c.parameter;
    law_stable_sorted_in_order(cand, key);
    let sorted = stable_sorted(cand, key);
    assert(sorted.map_values(key) =~= sorted.map_values(|c: ConflictView| c.parameter));
    lemma_dedup_strict(sorted);
}

} // verus!
