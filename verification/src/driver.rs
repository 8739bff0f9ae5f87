//! The driver: one forward pass over the rules of a configuration, under
//! three guardrails. A limit on the rules evaluated and a time budget end
//! the pass; a quota on pattern-matching rules skips single rules. The pass
//! never fails: what the guardrails cut off is simply missing from the
//! result.

use vstd::prelude::*;
use std::time::Duration;
use std::time::Instant;
use crate::evaluator::{evaluate_rule, rule_fires, rule_uses_regex, uses_regex};
use crate::models::{CartInput, CartView, Rule, RuleView, RulesConfig};
use crate::patterns::PatternLibrary;

verus! {

/// A point in time of the monotonic clock of the standard library. Nothing
/// inside it is visible here.
#[verifier::external_type_specification]
#[verifier::external_body]
pub struct ExInstant(std::time::Instant);

/// `Instant::now` reads the clock. Nothing is claimed of what it returns.
pub assume_specification[ Instant::now ]() -> (now: Instant);

/// `Instant::elapsed` measures the time since an instant. It depends on
/// when it is called, so nothing is claimed of what it returns.
pub assume_specification[ Instant::elapsed ](start: &Instant) -> (elapsed: Duration);

/// `Duration::as_millis` gives a duration in whole milliseconds. A duration
/// is opaque here, so nothing is claimed of the number.
pub assume_specification[ Duration::as_millis ](duration: &Duration) -> (millis: u128);

/// `Duration::as_micros` gives a duration in whole microseconds. A duration
/// is opaque here, so nothing is claimed of the number.
pub assume_specification[ Duration::as_micros ](duration: &Duration) -> (micros: u128);

/// What a rule that fired reports.
#[derive(Debug, Clone)]
pub struct ValidationError {
    pub rule_id: String,
    pub message: String,
}

/// The model of a [`ValidationError`].
pub struct ValidationErrorView {
    pub rule_id: Seq<char>,
    pub message: Seq<char>,
}

impl View for ValidationError {
    type V = ValidationErrorView;

    open spec fn view(&self) -> ValidationErrorView {
        ValidationErrorView { rule_id: self.rule_id@, message: self.message@ }
    }
}

/// What a pass returns.
#[derive(Debug, Clone)]
pub struct EvaluationResult {
    /// One entry for each evaluated rule that fired, in rule order.
    pub errors: Vec<ValidationError>,
    /// How many rules were evaluated, whether they fired or not.
    pub rules_evaluated: usize,
    /// How long the pass took, in microseconds.
    pub execution_time_us: u128,
}

/// The model of an [`EvaluationResult`].
pub struct EvaluationResultView {
    pub errors: Seq<ValidationErrorView>,
    pub rules_evaluated: nat,
    pub execution_time_us: nat,
}

impl View for EvaluationResult {
    type V = EvaluationResultView;

    open spec fn view(&self) -> EvaluationResultView {
        EvaluationResultView {
            errors: self.errors@.map_values(|e: ValidationError| e@),
            rules_evaluated: self.rules_evaluated as nat,
            execution_time_us: self.execution_time_us as nat,
        }
    }
}

/// The guardrails of a pass.
#[derive(Debug, Clone, Copy)]
pub struct EvaluatorConfig {
    /// The pass ends once this many rules have been evaluated.
    pub max_rules: usize,
    /// At most this many rules that use a pattern match are evaluated; any
    /// further one is skipped.
    pub max_regex_rules: usize,
    /// The pass ends at the first rule that comes up for evaluation after
    /// more than this many milliseconds.
    pub time_budget_ms: u128,
}

/// The guardrails used when the caller names none.
pub open spec fn default_limits() -> EvaluatorConfig {
    EvaluatorConfig { max_rules: 100, max_regex_rules: 30, time_budget_ms: 4 }
}

impl Default for EvaluatorConfig {
    fn default() -> (limits: EvaluatorConfig)
        ensures
            limits == default_limits(),
    {
        EvaluatorConfig { max_rules: 100, max_regex_rules: 30, time_budget_ms: 4 }
    }
}

/// The state of a pass between two rules.
#[derive(Debug, Clone)]
pub struct PassProgress {
    /// The errors of the rules that fired so far, in rule order.
    pub errors: Vec<ValidationError>,
    /// How many rules were evaluated so far.
    pub rules_evaluated: usize,
    /// How many of the rules let through so far use a pattern match.
    pub regex_rules: usize,
    /// Whether a guardrail has ended the pass.
    pub stopped: bool,
}

/// The model of a [`PassProgress`].
pub struct PassView {
    pub errors: Seq<ValidationErrorView>,
    pub rules_evaluated: nat,
    pub regex_rules: nat,
    pub stopped: bool,
}

impl View for PassProgress {
    type V = PassView;

    open spec fn view(&self) -> PassView {
        PassView {
            errors: self.errors@.map_values(|e: ValidationError| e@),
            rules_evaluated: self.rules_evaluated as nat,
            regex_rules: self.regex_rules as nat,
            stopped: self.stopped,
        }
    }
}

/// A pass before its first rule.
pub open spec fn pass_start() -> PassView {
    PassView { errors: Seq::empty(), rules_evaluated: 0, regex_rules: 0, stopped: false }
}

/// What the guardrails decide for one rule, before it is evaluated.
#[derive(Debug, Clone, Copy, PartialEq, Eq, Structural)]
pub enum Admission {
    /// The rule is passed over and the pass goes on.
    Skip,
    /// The pass ends before this rule.
    Stop,
    /// The rule is evaluated if the time budget allows.
    Proceed,
}

/// The decision for one rule. A disabled rule is skipped before any limit
/// is looked at. The rule limit then ends the pass. A rule that uses a
/// pattern match is skipped once the quota of such rules is used up, which
/// does not end the pass.
pub open spec fn admission(pass: PassView, rule: RuleView, limits: EvaluatorConfig) -> Admission {
    if pass.stopped {
        Admission::Stop
    } else if !rule.enabled {
        Admission::Skip
    } else if pass.rules_evaluated >= limits.max_rules {
        Admission::Stop
    } else if uses_regex(rule.conditions) && pass.regex_rules >= limits.max_regex_rules {
        Admission::Skip
    } else {
        Admission::Proceed
    }
}

/// The error that a rule reports when it fires.
pub open spec fn error_of(rule: RuleView) -> ValidationErrorView {
    ValidationErrorView { rule_id: rule.id, message: rule.error_message }
}

/// The pass after one rule, given the milliseconds that had elapsed when
/// the rule came up. A skipped rule changes nothing. A rule that is let
/// through counts against the quota of pattern-matching rules if it uses
/// one; it is then evaluated, unless the time budget is exceeded, which
/// ends the pass. An evaluated rule counts as evaluated whether it fires or
/// not, and reports its error if it fires.
pub open spec fn step(
    pass: PassView,
    rule: RuleView,
    cart: CartView,
    limits: EvaluatorConfig,
    elapsed_ms: u128,
) -> PassView {
    match admission(pass, rule, limits) {
        Admission::Skip => pass,
        Admission::Stop => PassView {
            errors: pass.errors,
            rules_evaluated: pass.rules_evaluated,
            regex_rules: pass.regex_rules,
            stopped: true,
        },
        Admission::Proceed => {
            let regex_rules = if uses_regex(rule.conditions) {
                pass.regex_rules + 1
            } else {
                pass.regex_rules
            };
            if elapsed_ms > limits.time_budget_ms {
                PassView {
                    errors: pass.errors,
                    rules_evaluated: pass.rules_evaluated,
                    regex_rules: regex_rules as nat,
                    stopped: true,
                }
            } else {
                PassView {
                    errors: if rule_fires(rule, cart) {
                        pass.errors.push(error_of(rule))
                    } else {
                        pass.errors
                    },
                    rules_evaluated: pass.rules_evaluated + 1,
                    regex_rules: regex_rules as nat,
                    stopped: false,
                }
            }
        },
    }
}

/// The pass after the first `n` rules, where `clock[i]` is the number of
/// milliseconds that had elapsed when rule `i` came up.
pub open spec fn pass_over(
    rules: Seq<RuleView>,
    cart: CartView,
    limits: EvaluatorConfig,
    clock: Seq<u128>,
    n: nat,
) -> PassView
    decreases n,
{
    if n == 0 {
        pass_start()
    } else {
        step(
            pass_over(rules, cart, limits, clock, (n - 1) as nat),
            rules[n - 1],
            cart,
            limits,
            clock[n - 1],
        )
    }
}

/// The pass after all rules.
pub open spec fn full_pass(
    rules: Seq<RuleView>,
    cart: CartView,
    limits: EvaluatorConfig,
    clock: Seq<u128>,
) -> PassView {
    pass_over(rules, cart, limits, clock, rules.len())
}

/// The pass after `n` rules depends on the first `n` clock readings only.
pub proof fn pass_reads_clock_prefix(
    rules: Seq<RuleView>,
    cart: CartView,
    limits: EvaluatorConfig,
    clock: Seq<u128>,
    other: Seq<u128>,
    n: nat,
)
    requires
        n <= clock.len(),
        n <= other.len(),
        forall|i: int| 0 <= i < n ==> clock[i] == other[i],
    ensures
        pass_over(rules, cart, limits, clock, n) == pass_over(rules, cart, limits, other, n),
    decreases n,
{
    if n > 0 {
        pass_reads_clock_prefix(rules, cart, limits, clock, other, (n - 1) as nat);
    }
}

/// Once a pass has stopped, later rules change nothing.
pub proof fn stopped_pass_stays(
    rules: Seq<RuleView>,
    cart: CartView,
    limits: EvaluatorConfig,
    clock: Seq<u128>,
    n: nat,
    m: nat,
)
    requires
        n <= m,
        pass_over(rules, cart, limits, clock, n).stopped,
    ensures
        pass_over(rules, cart, limits, clock, m) == pass_over(rules, cart, limits, clock, n),
    decreases m,
{
    if m > n {
        stopped_pass_stays(rules, cart, limits, clock, n, (m - 1) as nat);
    }
}

/// Every clock reading is within the time budget.
pub open spec fn within_budget(clock: Seq<u128>, limits: EvaluatorConfig) -> bool {
    forall|i: int| 0 <= i < clock.len() ==> clock[i] <= limits.time_budget_ms
}

/// Every rule is enabled.
pub open spec fn all_enabled(rules: Seq<RuleView>) -> bool {
    forall|i: int| 0 <= i < rules.len() ==> (#[trigger] rules[i]).enabled
}

/// How many of the first `n` rules use a pattern match.
pub open spec fn regex_rules_among(rules: Seq<RuleView>, n: nat) -> nat
    decreases n,
{
    if n == 0 {
        0
    } else {
        regex_rules_among(rules, (n - 1) as nat) + if uses_regex(rules[n - 1].conditions) {
            1nat
        } else {
            0nat
        }
    }
}

/// The smaller of two counts.
pub open spec fn least(a: nat, b: nat) -> nat {
    if a <= b {
        a
    } else {
        b
    }
}

/// A disabled rule leaves the pass as it was: it adds no error and touches
/// neither the count of rules evaluated nor the count of pattern-matching
/// rules.
pub proof fn disabled_rule_changes_nothing(
    pass: PassView,
    rule: RuleView,
    cart: CartView,
    limits: EvaluatorConfig,
    elapsed_ms: u128,
)
    requires
        !rule.enabled,
    ensures
        step(pass, rule, cart, limits, elapsed_ms) == pass,
{
}

/// A rule that uses no pattern match is evaluated whatever the state of the
/// quota of pattern-matching rules, as long as it is enabled, the rule limit
/// is not reached and the time budget holds.
pub proof fn plain_rule_is_evaluated_whatever_the_quota(
    pass: PassView,
    rule: RuleView,
    cart: CartView,
    limits: EvaluatorConfig,
    elapsed_ms: u128,
)
    requires
        !pass.stopped,
        rule.enabled,
        !uses_regex(rule.conditions),
        pass.rules_evaluated < limits.max_rules,
        elapsed_ms <= limits.time_budget_ms,
    ensures
        step(pass, rule, cart, limits, elapsed_ms).rules_evaluated == pass.rules_evaluated + 1,
        step(pass, rule, cart, limits, elapsed_ms).regex_rules == pass.regex_rules,
        !step(pass, rule, cart, limits, elapsed_ms).stopped,
        step(pass, rule, cart, limits, elapsed_ms).errors == if rule_fires(rule, cart) {
            pass.errors.push(error_of(rule))
        } else {
            pass.errors
        },
{
}

/// A rule that uses a pattern match and comes up when the quota is used up
/// leaves the pass as it was, and does not end it.
pub proof fn regex_rule_over_quota_is_skipped(
    pass: PassView,
    rule: RuleView,
    cart: CartView,
    limits: EvaluatorConfig,
    elapsed_ms: u128,
)
    requires
        !pass.stopped,
        rule.enabled,
        uses_regex(rule.conditions),
        pass.rules_evaluated < limits.max_rules,
        pass.regex_rules >= limits.max_regex_rules,
    ensures
        step(pass, rule, cart, limits, elapsed_ms) == pass,
{
}

/// No pass goes beyond its guardrails: it evaluates at most `max_rules`
/// rules and at most as many as it was given, lets through at most
/// `max_regex_rules` pattern-matching rules, and reports at most one error
/// for each rule evaluated.
pub proof fn pass_stays_within_limits(
    rules: Seq<RuleView>,
    cart: CartView,
    limits: EvaluatorConfig,
    clock: Seq<u128>,
    n: nat,
)
    ensures
        pass_over(rules, cart, limits, clock, n).rules_evaluated <= limits.max_rules,
        pass_over(rules, cart, limits, clock, n).rules_evaluated <= n,
        pass_over(rules, cart, limits, clock, n).regex_rules <= limits.max_regex_rules,
        pass_over(rules, cart, limits, clock, n).errors.len() <= pass_over(
            rules,
            cart,
            limits,
            clock,
            n,
        ).rules_evaluated,
    decreases n,
{
    if n > 0 {
        pass_stays_within_limits(rules, cart, limits, clock, (n - 1) as nat);
    }
}

/// While the time budget holds, the clock readings do not matter: two
/// passes over the same rules give the same result.
pub proof fn clock_within_budget_does_not_matter(
    rules: Seq<RuleView>,
    cart: CartView,
    limits: EvaluatorConfig,
    clock: Seq<u128>,
    other: Seq<u128>,
    n: nat,
)
    requires
        n <= clock.len(),
        n <= other.len(),
        within_budget(clock, limits),
        within_budget(other, limits),
    ensures
        pass_over(rules, cart, limits, clock, n) == pass_over(rules, cart, limits, other, n),
    decreases n,
{
    if n > 0 {
        clock_within_budget_does_not_matter(rules, cart, limits, clock, other, (n - 1) as nat);
    }
}

/// How many of the first `n` rules the quota of pattern-matching rules lets
/// through: every rule that uses no pattern match, and the pattern-matching
/// rules up to the quota.
pub open spec fn admissible_among(rules: Seq<RuleView>, limits: EvaluatorConfig, n: nat) -> nat {
    (n - regex_rules_among(rules, n) + least(
        regex_rules_among(rules, n),
        limits.max_regex_rules as nat,
    )) as nat
}

/// The count of pattern-matching rules grows with the number of rules
/// looked at, by at most one for each rule.
proof fn lemma_regex_rules_among_grows(rules: Seq<RuleView>, n: nat, m: nat)
    requires
        n <= m,
    ensures
        regex_rules_among(rules, n) <= regex_rules_among(rules, m),
        regex_rules_among(rules, m) <= m,
    decreases m,
{
    if n < m {
        lemma_regex_rules_among_grows(rules, n, (m - 1) as nat);
    } else if m > 0 {
        lemma_regex_rules_among_grows(rules, (m - 1) as nat, (m - 1) as nat);
    }
}

/// One more rule adds one to the count of rules let through, unless it is
/// a pattern-matching rule that finds the quota used up.
proof fn lemma_admissible_among_step(rules: Seq<RuleView>, limits: EvaluatorConfig, n: nat)
    requires
        n > 0,
    ensures
        admissible_among(rules, limits, n) == admissible_among(rules, limits, (n - 1) as nat) + (
        if uses_regex(rules[n - 1].conditions) && regex_rules_among(rules, (n - 1) as nat)
            >= limits.max_regex_rules {
            0nat
        } else {
            1nat
        }),
{
    lemma_regex_rules_among_grows(rules, (n - 1) as nat, (n - 1) as nat);
}

/// The count of rules let through grows with the number of rules looked at.
proof fn lemma_admissible_among_grows(
    rules: Seq<RuleView>,
    limits: EvaluatorConfig,
    n: nat,
    m: nat,
)
    requires
        n <= m,
    ensures
        admissible_among(rules, limits, n) <= admissible_among(rules, limits, m),
    decreases m,
{
    if n < m {
        lemma_admissible_among_grows(rules, limits, n, (m - 1) as nat);
        lemma_admissible_among_step(rules, limits, m);
    }
}

/// How many rules a pass evaluates. When every rule is enabled and the time
/// budget is kept, a pass over the first `n` rules evaluates as many rules
/// as the quota of pattern-matching rules lets through, up to the rule
/// limit.
pub proof fn guardrails_fix_the_count(
    rules: Seq<RuleView>,
    cart: CartView,
    limits: EvaluatorConfig,
    clock: Seq<u128>,
    n: nat,
)
    requires
        n <= rules.len(),
        clock.len() == rules.len(),
        all_enabled(rules),
        within_budget(clock, limits),
    ensures
        pass_over(rules, cart, limits, clock, n).rules_evaluated == least(
            admissible_among(rules, limits, n),
            limits.max_rules as nat,
        ),
        !pass_over(rules, cart, limits, clock, n).stopped ==> pass_over(
            rules,
            cart,
            limits,
            clock,
            n,
        ).regex_rules == least(regex_rules_among(rules, n), limits.max_regex_rules as nat),
        pass_over(rules, cart, limits, clock, n).stopped ==> admissible_among(rules, limits, n)
            >= limits.max_rules,
    decreases n,
{
    if n > 0 {
        guardrails_fix_the_count(rules, cart, limits, clock, (n - 1) as nat);
        lemma_admissible_among_step(rules, limits, n);
        assert(rules[n - 1].enabled);
        assert(clock[n - 1] <= limits.time_budget_ms);
    }
}

/// With every rule enabled, and with the time budget kept and the quota of
/// pattern-matching rules sufficient over the first `k` rules, the pass
/// over the first `n` of them evaluates each, if `k` is within the rule
/// limit.
proof fn lemma_pass_below_rule_limit(
    rules: Seq<RuleView>,
    cart: CartView,
    limits: EvaluatorConfig,
    clock: Seq<u128>,
    k: nat,
    n: nat,
)
    requires
        clock.len() == rules.len(),
        all_enabled(rules),
        k <= rules.len(),
        k <= limits.max_rules,
        within_budget(clock.take(k as int), limits),
        regex_rules_among(rules, k) <= limits.max_regex_rules,
        n <= k,
    ensures
        pass_over(rules, cart, limits, clock, n).rules_evaluated == n,
        pass_over(rules, cart, limits, clock, n).regex_rules == regex_rules_among(rules, n),
        !pass_over(rules, cart, limits, clock, n).stopped,
    decreases n,
{
    if n > 0 {
        lemma_pass_below_rule_limit(rules, cart, limits, clock, k, (n - 1) as nat);
        lemma_regex_rules_among_grows(rules, n, k);
        assert(rules[n - 1].enabled);
        assert(clock.take(k as int)[n - 1] <= limits.time_budget_ms);
    }
}

/// With every rule enabled, and with the time budget kept and the quota of
/// pattern-matching rules sufficient over the first `max_rules` rules, the
/// pass over the first `n` rules, for `n` beyond the rule limit, has ended
/// with what the pass over the first `max_rules` rules had found.
proof fn lemma_pass_beyond_rule_limit(
    rules: Seq<RuleView>,
    cart: CartView,
    limits: EvaluatorConfig,
    clock: Seq<u128>,
    n: nat,
)
    requires
        clock.len() == rules.len(),
        all_enabled(rules),
        within_budget(clock.take(limits.max_rules as int), limits),
        regex_rules_among(rules, limits.max_rules as nat) <= limits.max_regex_rules,
        limits.max_rules < n <= rules.len(),
    ensures
        pass_over(rules, cart, limits, clock, n).rules_evaluated == limits.max_rules,
        pass_over(rules, cart, limits, clock, n).errors == pass_over(
            rules,
            cart,
            limits,
            clock,
            limits.max_rules as nat,
        ).errors,
        pass_over(rules, cart, limits, clock, n).stopped,
    decreases n,
{
    assert(rules[n - 1].enabled);
    if n == limits.max_rules + 1 {
        lemma_pass_below_rule_limit(
            rules,
            cart,
            limits,
            clock,
            limits.max_rules as nat,
            (n - 1) as nat,
        );
    } else {
        lemma_pass_beyond_rule_limit(rules, cart, limits, clock, (n - 1) as nat);
    }
}

/// The rule limit. Let `k` be the rule limit, or the number of rules if
/// that is smaller. When every rule is enabled, and over the first `k`
/// rules the time budget is kept and the quota of pattern-matching rules
/// suffices, a pass evaluates exactly the first `k` rules: it counts `k`
/// rules evaluated, and its errors are those of the pass over the first `k`
/// rules, in order.
pub proof fn rule_limit_keeps_the_first_rules(
    rules: Seq<RuleView>,
    cart: CartView,
    limits: EvaluatorConfig,
    clock: Seq<u128>,
)
    requires
        clock.len() == rules.len(),
        all_enabled(rules),
        within_budget(clock.take(least(rules.len(), limits.max_rules as nat) as int), limits),
        regex_rules_among(rules, least(rules.len(), limits.max_rules as nat))
            <= limits.max_regex_rules,
    ensures
        full_pass(rules, cart, limits, clock).rules_evaluated == least(
            rules.len(),
            limits.max_rules as nat,
        ),
        full_pass(rules, cart, limits, clock).errors == pass_over(
            rules,
            cart,
            limits,
            clock,
            least(rules.len(), limits.max_rules as nat),
        ).errors,
{
    if rules.len() <= limits.max_rules {
        lemma_pass_below_rule_limit(rules, cart, limits, clock, rules.len(), rules.len());
    } else {
        lemma_pass_beyond_rule_limit(rules, cart, limits, clock, rules.len());
    }
}

/// With every rule enabled, the time budget kept, and no more rules let
/// through by the quota than the rule limit allows, the pass over the first
/// `n` rules has let through the pattern-matching rules up to the quota.
proof fn lemma_quota_is_used_in_order(
    rules: Seq<RuleView>,
    cart: CartView,
    limits: EvaluatorConfig,
    clock: Seq<u128>,
    n: nat,
)
    requires
        n <= rules.len(),
        clock.len() == rules.len(),
        all_enabled(rules),
        within_budget(clock, limits),
        admissible_among(rules, limits, rules.len()) <= limits.max_rules,
    ensures
        pass_over(rules, cart, limits, clock, n).regex_rules == least(
            regex_rules_among(rules, n),
            limits.max_regex_rules as nat,
        ),
    decreases n,
{
    if n > 0 {
        let before = (n - 1) as nat;
        lemma_quota_is_used_in_order(rules, cart, limits, clock, before);
        guardrails_fix_the_count(rules, cart, limits, clock, before);
        guardrails_fix_the_count(rules, cart, limits, clock, n);
        lemma_admissible_among_step(rules, limits, n);
        lemma_admissible_among_grows(rules, limits, n, rules.len());
        assert(rules[n - 1].enabled);
        assert(clock[n - 1] <= limits.time_budget_ms);
    }
}

/// The quota of pattern-matching rules. When every rule is enabled, the
/// time budget is kept, and the rule limit allows for all that the quota
/// lets through, a pass evaluates exactly `max_regex_rules` of the rules
/// that use a pattern match if there are more than that, and all of them
/// otherwise. The others are skipped and not counted. Every rule that uses
/// no pattern match is evaluated, wherever it stands among the others.
pub proof fn regex_quota_skips_only_the_excess(
    rules: Seq<RuleView>,
    cart: CartView,
    limits: EvaluatorConfig,
    clock: Seq<u128>,
)
    requires
        clock.len() == rules.len(),
        all_enabled(rules),
        within_budget(clock, limits),
        admissible_among(rules, limits, rules.len()) <= limits.max_rules,
    ensures
        full_pass(rules, cart, limits, clock).regex_rules == least(
            regex_rules_among(rules, rules.len()),
            limits.max_regex_rules as nat,
        ),
        full_pass(rules, cart, limits, clock).rules_evaluated == rules.len() - regex_rules_among(
            rules,
            rules.len(),
        ) + least(regex_rules_among(rules, rules.len()), limits.max_regex_rules as nat),
{
    lemma_quota_is_used_in_order(rules, cart, limits, clock, rules.len());
    guardrails_fix_the_count(rules, cart, limits, clock, rules.len());
    lemma_regex_rules_among_grows(rules, rules.len(), rules.len());
}

impl PassProgress {
    /// A pass before its first rule.
    pub fn new() -> (progress: PassProgress)
        ensures
            progress@ == pass_start(),
    {
        let progress = PassProgress {
            errors: Vec::new(),
            rules_evaluated: 0,
            regex_rules: 0,
            stopped: false,
        };
        assert(progress@.errors =~= Seq::empty());
        progress
    }
}

/// Takes a pass through one rule. `elapsed_ms` is the time since the pass
/// began, in milliseconds, read when the rule comes up.
pub fn apply_rule(
    rule: &Rule,
    cart: &CartInput,
    eval_config: &EvaluatorConfig,
    library: &PatternLibrary,
    elapsed_ms: u128,
    progress: &mut PassProgress,
)
    ensures
        final(progress)@ == step(old(progress)@, rule@, cart@, *eval_config, elapsed_ms),
{
    if progress.stopped {
        return ;
    }
    if !rule.enabled {
        return ;
    }
    if progress.rules_evaluated >= eval_config.max_rules {
        progress.stopped = true;
        return ;
    }
    if rule_uses_regex(&rule.conditions) {
        if progress.regex_rules >= eval_config.max_regex_rules {
            return ;
        }
        progress.regex_rules = progress.regex_rules + 1;
    }
    if elapsed_ms > eval_config.time_budget_ms {
        progress.stopped = true;
        return ;
    }
    if evaluate_rule(rule, cart, library) {
        let error = ValidationError {
            rule_id: rule.id.clone(),
            message: rule.error_message.clone(),
        };
        progress.errors.push(error);
        assert(progress@.errors =~= old(progress)@.errors.push(error_of(rule@)));
    }
    progress.rules_evaluated = progress.rules_evaluated + 1;
}

/// What a result shows of a pass: its errors and its count of rules.
pub open spec fn reports(result: EvaluationResultView, pass: PassView) -> bool {
    &&& result.errors == pass.errors
    &&& result.rules_evaluated == pass.rules_evaluated
}

/// The clock that reads zero at each of `n` rules.
pub open spec fn still_clock(n: nat) -> Seq<u128> {
    Seq::new(n, |i: int| 0u128)
}

/// Evaluates the rules of a configuration against a cart, in order, under
/// the given guardrails. The clock is read once for each rule. The result
/// is that of the pass under the readings taken; it reports the time the
/// pass took, of which nothing else is known. With a time budget of
/// `u128::MAX` no reading can exceed the budget, and the result is that of
/// the pass under a clock that stands still.
pub fn evaluate_rules_with_config(
    config: &RulesConfig,
    cart: &CartInput,
    eval_config: &EvaluatorConfig,
    library: &PatternLibrary,
) -> (result: EvaluationResult)
    ensures
        exists|clock: Seq<u128>|
            clock.len() == config@.rules.len() && reports(
                result@,
                #[trigger] full_pass(config@.rules, cart@, *eval_config, clock),
            ),
        eval_config.time_budget_ms == u128::MAX ==> reports(
            result@,
            full_pass(config@.rules, cart@, *eval_config, still_clock(config@.rules.len())),
        ),
        result.rules_evaluated <= eval_config.max_rules,
        result.rules_evaluated <= config.rules.len(),
        result.errors.len() <= result.rules_evaluated,
{
    let start = Instant::now();
    let mut progress = PassProgress::new();
    let ghost rules = config@.rules;
    let ghost mut clock: Seq<u128> = Seq::empty();
    let mut i: usize = 0;
    while i < config.rules.len() && !progress.stopped
        invariant
            0 <= i <= config.rules.len(),
            rules == config@.rules,
            rules.len() == config.rules.len(),
            clock.len() == i,
            progress@ == pass_over(rules, cart@, *eval_config, clock, i as nat),
        decreases config.rules.len() - i,
    {
        let elapsed_ms = start.elapsed().as_millis();
        proof {
            let longer = clock.push(elapsed_ms);
            pass_reads_clock_prefix(rules, cart@, *eval_config, clock, longer, i as nat);
            clock = longer;
            assert(rules[i as int] == config.rules[i as int]@);
        }
        apply_rule(&config.rules[i], cart, eval_config, library, elapsed_ms, &mut progress);
        i += 1;
    }
    proof {
        let rest = Seq::new((rules.len() - i) as nat, |k: int| 0u128);
        let whole = clock + rest;
        pass_reads_clock_prefix(rules, cart@, *eval_config, clock, whole, i as nat);
        if i < rules.len() {
            stopped_pass_stays(rules, cart@, *eval_config, whole, i as nat, rules.len());
        }
        assert(whole.len() == rules.len());
        assert(progress@ == full_pass(rules, cart@, *eval_config, whole));
        pass_stays_within_limits(rules, cart@, *eval_config, whole, rules.len());
        if eval_config.time_budget_ms == u128::MAX {
            clock_within_budget_does_not_matter(
                rules,
                cart@,
                *eval_config,
                whole,
                still_clock(rules.len()),
                rules.len(),
            );
        }
    }
    let execution_time_us = start.elapsed().as_micros();
    let result = EvaluationResult {
        errors: progress.errors,
        rules_evaluated: progress.rules_evaluated,
        execution_time_us,
    };
    assert(reports(result@, progress@));
    result
}

/// Evaluates the rules of a configuration against a cart under the default
/// guardrails.
pub fn evaluate_rules(config: &RulesConfig, cart: &CartInput, library: &PatternLibrary) -> (result:
    EvaluationResult)
    ensures
        exists|clock: Seq<u128>|
            clock.len() == config@.rules.len() && reports(
                result@,
                #[trigger] full_pass(config@.rules, cart@, default_limits(), clock),
            ),
        result.rules_evaluated <= default_limits().max_rules,
        result.rules_evaluated <= config.rules.len(),
        result.errors.len() <= result.rules_evaluated,
{
    let limits = EvaluatorConfig::default();
    evaluate_rules_with_config(config, cart, &limits, library)
}

} // verus!
