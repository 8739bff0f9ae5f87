use logicflow::decimal::Decimal;
use logicflow::driver::{
    apply_rule, evaluate_rules, evaluate_rules_with_config, EvaluatorConfig, PassProgress,
    ValidationError,
};
use logicflow::models::{
    Address, CartInput, ComparisonOperator, Condition, ConditionGroup, Criterion, Literal,
    LogicalOperator, Rule, RulesConfig,
};
use logicflow::patterns::PatternLibrary;

fn num(x: f64) -> Decimal {
    Decimal::from_units((x * 1e12).round() as i128)
}

fn library() -> PatternLibrary {
    PatternLibrary::new().expect("every preset compiles")
}

/// Guardrails whose time budget can never be exceeded.
fn untimed(max_rules: usize, max_regex_rules: usize) -> EvaluatorConfig {
    EvaluatorConfig {
        max_rules,
        max_regex_rules,
        time_budget_ms: u128::MAX,
    }
}

fn rule(id: &str, enabled: bool, criterion: Criterion) -> Rule {
    Rule {
        id: id.to_string(),
        name: format!("Rule {}", id),
        complexity: 1,
        enabled,
        error_message: format!("Blocked by {}", id),
        conditions: ConditionGroup {
            operator: LogicalOperator::And,
            criteria: vec![criterion],
        },
    }
}

fn total_above(limit: f64) -> Criterion {
    Criterion::Condition(Condition {
        field: "cart.total".to_string(),
        operator: ComparisonOperator::GreaterThan,
        value: Literal::Number(num(limit)),
        is_preset: false,
    })
}

fn po_box() -> Criterion {
    Criterion::Condition(Condition {
        field: "shipping_address.address1".to_string(),
        operator: ComparisonOperator::RegexMatch,
        value: Literal::String("po_box".to_string()),
        is_preset: true,
    })
}

/// A rule that fires on the test cart and uses no pattern.
fn plain(id: &str) -> Rule {
    rule(id, true, total_above(100.0))
}

/// A rule that does not fire on the test cart and uses no pattern.
fn quiet(id: &str) -> Rule {
    rule(id, true, total_above(999999.0))
}

/// A rule that fires on the test cart and uses a pattern.
fn regex(id: &str) -> Rule {
    rule(id, true, po_box())
}

fn cart() -> CartInput {
    CartInput {
        total: num(150.0),
        shipping_address: Address {
            address1: "PO Box 456".to_string(),
            ..Default::default()
        },
        ..Default::default()
    }
}

fn config(rules: Vec<Rule>) -> RulesConfig {
    RulesConfig {
        version: "1.0".to_string(),
        total_complexity: rules.len() as u32,
        rules,
    }
}

fn ids(errors: &[ValidationError]) -> Vec<String> {
    errors.iter().map(|e| e.rule_id.clone()).collect()
}

#[test]
fn default_guardrails() {
    let limits = EvaluatorConfig::default();
    assert_eq!(limits.max_rules, 100);
    assert_eq!(limits.max_regex_rules, 30);
    assert_eq!(limits.time_budget_ms, 4);
}

#[test]
fn empty_configuration_gives_an_empty_result() {
    let lib = library();
    let result = evaluate_rules(&config(vec![]), &cart(), &lib);
    assert!(result.errors.is_empty());
    assert_eq!(result.rules_evaluated, 0);
}

#[test]
fn errors_come_in_rule_order_with_id_and_message() {
    let lib = library();
    let rules = vec![plain("a"), quiet("b"), regex("c"), plain("d")];
    let result = evaluate_rules_with_config(&config(rules), &cart(), &untimed(100, 30), &lib);
    assert_eq!(ids(&result.errors), vec!["a", "c", "d"]);
    assert_eq!(result.errors[0].message, "Blocked by a");
    assert_eq!(result.errors[1].message, "Blocked by c");
    assert_eq!(result.errors[2].message, "Blocked by d");
    // A rule counts as evaluated whether it fires or not.
    assert_eq!(result.rules_evaluated, 4);
}

#[test]
fn disabled_rules_touch_nothing() {
    let lib = library();
    let rules = vec![
        rule("off1", false, total_above(100.0)),
        plain("a"),
        rule("off2", false, po_box()),
        rule("off3", false, po_box()),
        regex("b"),
        rule("off4", false, total_above(100.0)),
    ];
    // One pattern-matching rule is allowed: the disabled ones before it
    // must not have used the quota up.
    let result = evaluate_rules_with_config(&config(rules), &cart(), &untimed(100, 1), &lib);
    assert_eq!(ids(&result.errors), vec!["a", "b"]);
    assert_eq!(result.rules_evaluated, 2);
}

#[test]
fn disabled_rule_leaves_the_progress_as_it_was() {
    let lib = library();
    let limits = untimed(100, 30);
    let mut progress = PassProgress::new();
    apply_rule(&plain("a"), &cart(), &limits, &lib, 0, &mut progress);
    apply_rule(&regex("b"), &cart(), &limits, &lib, 0, &mut progress);
    assert_eq!(progress.rules_evaluated, 2);
    assert_eq!(progress.regex_rules, 1);
    assert_eq!(progress.errors.len(), 2);

    for off in [rule("off", false, total_above(100.0)), rule("off", false, po_box())] {
        apply_rule(&off, &cart(), &limits, &lib, 0, &mut progress);
        assert_eq!(progress.rules_evaluated, 2);
        assert_eq!(progress.regex_rules, 1);
        assert_eq!(ids(&progress.errors), vec!["a", "b"]);
        assert!(!progress.stopped);
    }

    // Not even a spent time budget or a reached rule limit makes a
    // disabled rule end the pass.
    let spent = EvaluatorConfig {
        max_rules: 2,
        max_regex_rules: 1,
        time_budget_ms: 0,
    };
    apply_rule(&rule("off", false, po_box()), &cart(), &spent, &lib, 1_000, &mut progress);
    assert_eq!(progress.rules_evaluated, 2);
    assert_eq!(progress.regex_rules, 1);
    assert_eq!(progress.errors.len(), 2);
    assert!(!progress.stopped);
}

#[test]
fn rule_limit_keeps_the_first_rules() {
    let lib = library();
    for n in [0usize, 1, 3, 10] {
        let rules: Vec<Rule> = (0..n + 5).map(|i| plain(&format!("r{}", i))).collect();
        let result = evaluate_rules_with_config(&config(rules), &cart(), &untimed(n, 30), &lib);
        assert_eq!(result.rules_evaluated, n);
        let expected: Vec<String> = (0..n).map(|i| format!("r{}", i)).collect();
        assert_eq!(ids(&result.errors), expected);
    }
}

#[test]
fn rule_limit_counts_rules_that_do_not_fire() {
    let lib = library();
    let rules = vec![quiet("q1"), quiet("q2"), plain("a"), plain("b")];
    let result = evaluate_rules_with_config(&config(rules), &cart(), &untimed(3, 30), &lib);
    assert_eq!(result.rules_evaluated, 3);
    assert_eq!(ids(&result.errors), vec!["a"]);
}

#[test]
fn rule_limit_above_the_number_of_rules_evaluates_all() {
    let lib = library();
    let rules: Vec<Rule> = (0..7).map(|i| plain(&format!("r{}", i))).collect();
    let result = evaluate_rules_with_config(&config(rules), &cart(), &untimed(8, 30), &lib);
    assert_eq!(result.rules_evaluated, 7);
    assert_eq!(result.errors.len(), 7);
}

#[test]
fn regex_quota_skips_the_excess_and_goes_on() {
    let lib = library();
    // Five pattern-matching rules between plain ones, with a quota of two.
    let rules = vec![
        plain("a0"),
        regex("x0"),
        regex("x1"),
        plain("a1"),
        regex("x2"),
        quiet("q0"),
        regex("x3"),
        plain("a2"),
        regex("x4"),
        plain("a3"),
    ];
    let result = evaluate_rules_with_config(&config(rules), &cart(), &untimed(100, 2), &lib);
    assert_eq!(ids(&result.errors), vec!["a0", "x0", "x1", "a1", "a2", "a3"]);
    // Five plain rules and two pattern-matching ones: the three skipped
    // are not counted.
    assert_eq!(result.rules_evaluated, 7);
}

#[test]
fn regex_quota_of_zero_skips_every_pattern_rule() {
    let lib = library();
    let rules = vec![regex("x0"), plain("a0"), regex("x1")];
    let result = evaluate_rules_with_config(&config(rules), &cart(), &untimed(100, 0), &lib);
    assert_eq!(ids(&result.errors), vec!["a0"]);
    assert_eq!(result.rules_evaluated, 1);
}

#[test]
fn regex_quota_counts_pattern_rules_inside_nested_groups() {
    let lib = library();
    let nested = |id: &str| Rule {
        id: id.to_string(),
        name: "nested".to_string(),
        complexity: 3,
        enabled: true,
        error_message: "nested".to_string(),
        conditions: ConditionGroup {
            operator: LogicalOperator::Or,
            criteria: vec![
                total_above(999999.0),
                Criterion::Group(ConditionGroup {
                    operator: LogicalOperator::And,
                    criteria: vec![po_box()],
                }),
            ],
        },
    };
    let rules = vec![nested("n0"), nested("n1"), plain("a0")];
    let result = evaluate_rules_with_config(&config(rules), &cart(), &untimed(100, 1), &lib);
    assert_eq!(ids(&result.errors), vec!["n0", "a0"]);
    assert_eq!(result.rules_evaluated, 2);
}

#[test]
fn skipped_pattern_rules_do_not_count_against_the_rule_limit() {
    let lib = library();
    let rules = vec![regex("x0"), regex("x1"), regex("x2"), plain("a0"), plain("a1"), plain("a2")];
    let result = evaluate_rules_with_config(&config(rules), &cart(), &untimed(3, 1), &lib);
    assert_eq!(ids(&result.errors), vec!["x0", "a0", "a1"]);
    assert_eq!(result.rules_evaluated, 3);
}

#[test]
fn spent_time_budget_ends_the_pass_at_the_next_rule() {
    let lib = library();
    let limits = EvaluatorConfig {
        max_rules: 100,
        max_regex_rules: 30,
        time_budget_ms: 4,
    };
    let mut progress = PassProgress::new();
    // At the budget the rule still runs; the budget is exceeded only above it.
    apply_rule(&plain("a"), &cart(), &limits, &lib, 0, &mut progress);
    apply_rule(&plain("b"), &cart(), &limits, &lib, 4, &mut progress);
    assert_eq!(progress.rules_evaluated, 2);
    assert!(!progress.stopped);
    apply_rule(&plain("c"), &cart(), &limits, &lib, 5, &mut progress);
    assert_eq!(progress.rules_evaluated, 2);
    assert_eq!(ids(&progress.errors), vec!["a", "b"]);
    assert!(progress.stopped);
    // Nothing happens after the end, even if the clock reads less again.
    apply_rule(&plain("d"), &cart(), &limits, &lib, 0, &mut progress);
    assert_eq!(progress.rules_evaluated, 2);
    assert_eq!(progress.errors.len(), 2);
    assert!(progress.stopped);
}

#[test]
fn time_budget_is_not_looked_at_for_a_skipped_rule() {
    let lib = library();
    let limits = EvaluatorConfig {
        max_rules: 100,
        max_regex_rules: 0,
        time_budget_ms: 4,
    };
    let mut progress = PassProgress::new();
    apply_rule(&rule("off", false, total_above(1.0)), &cart(), &limits, &lib, 99, &mut progress);
    apply_rule(&regex("x"), &cart(), &limits, &lib, 99, &mut progress);
    assert!(!progress.stopped);
    assert_eq!(progress.rules_evaluated, 0);
    assert_eq!(progress.regex_rules, 0);
    apply_rule(&plain("a"), &cart(), &limits, &lib, 99, &mut progress);
    assert!(progress.stopped);
    assert_eq!(progress.rules_evaluated, 0);
}

#[test]
fn reached_rule_limit_ends_the_pass() {
    let lib = library();
    let limits = untimed(1, 30);
    let mut progress = PassProgress::new();
    apply_rule(&plain("a"), &cart(), &limits, &lib, 0, &mut progress);
    assert_eq!(progress.rules_evaluated, 1);
    assert!(!progress.stopped);
    apply_rule(&plain("b"), &cart(), &limits, &lib, 0, &mut progress);
    assert_eq!(progress.rules_evaluated, 1);
    assert_eq!(ids(&progress.errors), vec!["a"]);
    assert!(progress.stopped);
}

#[test]
fn pattern_rule_that_is_let_through_uses_the_quota_even_if_time_is_up() {
    let lib = library();
    let limits = EvaluatorConfig {
        max_rules: 100,
        max_regex_rules: 5,
        time_budget_ms: 4,
    };
    let mut progress = PassProgress::new();
    apply_rule(&regex("x"), &cart(), &limits, &lib, 10, &mut progress);
    assert_eq!(progress.regex_rules, 1);
    assert_eq!(progress.rules_evaluated, 0);
    assert!(progress.errors.is_empty());
    assert!(progress.stopped);
}

#[test]
fn zero_time_budget_still_admits_a_reading_of_zero() {
    let lib = library();
    let limits = EvaluatorConfig {
        max_rules: 100,
        max_regex_rules: 30,
        time_budget_ms: 0,
    };
    let mut progress = PassProgress::new();
    apply_rule(&plain("a"), &cart(), &limits, &lib, 0, &mut progress);
    assert_eq!(progress.rules_evaluated, 1);
    apply_rule(&plain("b"), &cart(), &limits, &lib, 1, &mut progress);
    assert_eq!(progress.rules_evaluated, 1);
    assert!(progress.stopped);
}

#[test]
fn the_pass_never_goes_beyond_its_guardrails() {
    let lib = library();
    let rules = || -> Vec<Rule> {
        (0..12)
            .map(|i| if i % 2 == 0 { regex(&format!("x{}", i)) } else { quiet(&format!("q{}", i)) })
            .collect()
    };
    for max_rules in [0usize, 1, 4, 20] {
        for max_regex_rules in [0usize, 2, 20] {
            let limits = untimed(max_rules, max_regex_rules);
            let result = evaluate_rules_with_config(&config(rules()), &cart(), &limits, &lib);
            assert!(result.rules_evaluated <= max_rules);
            assert!(result.rules_evaluated <= 12);
            assert!(result.errors.len() <= result.rules_evaluated);
            assert!(result.errors.len() <= max_regex_rules);
        }
    }
}

#[test]
fn the_same_pass_twice_gives_the_same_result() {
    let lib = library();
    let rules = || vec![plain("a"), regex("b"), quiet("c"), regex("d"), plain("e")];
    let first = evaluate_rules_with_config(&config(rules()), &cart(), &untimed(4, 1), &lib);
    let second = evaluate_rules_with_config(&config(rules()), &cart(), &untimed(4, 1), &lib);
    assert_eq!(ids(&first.errors), ids(&second.errors));
    assert_eq!(ids(&first.errors), vec!["a", "b", "e"]);
    assert_eq!(first.rules_evaluated, second.rules_evaluated);
    assert_eq!(first.rules_evaluated, 4);
}

#[test]
fn the_pass_leaves_configuration_and_cart_alone() {
    let lib = library();
    let configuration = config(vec![plain("a"), regex("b")]);
    let record = cart();
    let _ = evaluate_rules_with_config(&configuration, &record, &untimed(100, 30), &lib);
    assert_eq!(configuration.rules.len(), 2);
    assert_eq!(configuration.rules[0].id, "a");
    assert!(configuration.rules[1].enabled);
    assert_eq!(record.total.units, num(150.0).units);
    assert_eq!(record.shipping_address.address1, "PO Box 456");
}
