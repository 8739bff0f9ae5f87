//! The group evaluator: a walk over a condition tree that decides whether
//! the tree holds of a cart.

use vstd::prelude::*;
use crate::comparator::{compare, compare_spec};
use crate::models::{
    resolve, CartInput, CartView, ComparisonOperator, Condition, ConditionGroup, ConditionView,
    Criterion, CriterionView, GroupView, LogicalOperator, Rule, RuleView,
};
use crate::patterns::PatternLibrary;

verus! {

/// How many groups may stand inside one another, the outermost included.
/// A group nested deeper than this does not hold, whatever it contains, so
/// the walk never descends further than this many levels.
pub const MAX_NESTING_DEPTH: usize = 32;

/// A condition holds when its field resolves and the comparison succeeds.
/// A condition on an unknown field does not hold, whatever its operator.
pub open spec fn condition_holds(condition: ConditionView, cart: CartView) -> bool {
    match resolve(cart, condition.field) {
        Some(value) => compare_spec(
            value,
            condition.operator,
            condition.value,
            condition.is_preset,
        ),
        None => false,
    }
}

/// Whether a group holds when `depth` levels of groups may still be entered,
/// this one included. An `And` group holds when every criterion holds, an
/// `Or` group when at least one does; so an empty `And` holds and an empty
/// `Or` does not.
pub open spec fn group_holds_within(group: GroupView, cart: CartView, depth: nat) -> bool
    decreases depth, 0nat,
{
    if depth == 0 {
        false
    } else {
        match group.operator {
            LogicalOperator::And => forall|i: int|
                0 <= i < group.criteria.len() ==> criterion_holds_within(
                    #[trigger] group.criteria[i],
                    cart,
                    (depth - 1) as nat,
                ),
            LogicalOperator::Or => exists|i: int|
                0 <= i < group.criteria.len() && criterion_holds_within(
                    #[trigger] group.criteria[i],
                    cart,
                    (depth - 1) as nat,
                ),
        }
    }
}

/// Whether a criterion holds when `depth` levels of groups may still be
/// entered below it.
pub open spec fn criterion_holds_within(criterion: CriterionView, cart: CartView, depth: nat) -> bool
    decreases depth, 1nat,
{
    match criterion {
        CriterionView::Condition(condition) => condition_holds(condition, cart),
        CriterionView::Group(group) => group_holds_within(group, cart, depth),
    }
}

/// Whether the outermost group of a rule holds.
pub open spec fn group_holds(group: GroupView, cart: CartView) -> bool {
    group_holds_within(group, cart, MAX_NESTING_DEPTH as nat)
}

/// Whether a criterion of the outermost group of a rule holds.
pub open spec fn criterion_holds(criterion: CriterionView, cart: CartView) -> bool {
    criterion_holds_within(criterion, cart, (MAX_NESTING_DEPTH - 1) as nat)
}

/// A rule fires when its conditions hold.
pub open spec fn rule_fires(rule: RuleView, cart: CartView) -> bool {
    group_holds(rule.conditions, cart)
}

/// Whether a group has a `RegexMatch` leaf within `depth` levels of groups,
/// this one included.
pub open spec fn uses_regex_within(group: GroupView, depth: nat) -> bool
    decreases depth, 0nat,
{
    depth > 0 && exists|i: int|
        0 <= i < group.criteria.len() && criterion_uses_regex_within(
            #[trigger] group.criteria[i],
            (depth - 1) as nat,
        )
}

/// Whether a criterion is, or has within `depth` levels of groups, a
/// `RegexMatch` leaf.
pub open spec fn criterion_uses_regex_within(criterion: CriterionView, depth: nat) -> bool
    decreases depth, 1nat,
{
    match criterion {
        CriterionView::Condition(condition) => condition.operator
            == ComparisonOperator::RegexMatch,
        CriterionView::Group(group) => uses_regex_within(group, depth),
    }
}

/// Whether evaluating a group can run a pattern match: whether there is a
/// `RegexMatch` leaf at a depth that evaluation reaches.
pub open spec fn uses_regex(group: GroupView) -> bool {
    uses_regex_within(group, MAX_NESTING_DEPTH as nat)
}

/// An `And` group does not hold if one of its criteria does not hold. This
/// is so at every level of nesting that evaluation reaches; for the
/// outermost group of a rule, `depth` is `MAX_NESTING_DEPTH`.
pub proof fn and_group_fails_with_a_failing_criterion(
    group: GroupView,
    cart: CartView,
    depth: nat,
    i: int,
)
    requires
        depth > 0,
        group.operator is And,
        0 <= i < group.criteria.len(),
        !criterion_holds_within(group.criteria[i], cart, (depth - 1) as nat),
    ensures
        !group_holds_within(group, cart, depth),
{
}

/// An `Or` group holds if one of its criteria holds. This is so at every
/// level of nesting that evaluation reaches; for the outermost group of a
/// rule, `depth` is `MAX_NESTING_DEPTH`.
pub proof fn or_group_holds_with_a_holding_criterion(
    group: GroupView,
    cart: CartView,
    depth: nat,
    i: int,
)
    requires
        depth > 0,
        group.operator is Or,
        0 <= i < group.criteria.len(),
        criterion_holds_within(group.criteria[i], cart, (depth - 1) as nat),
    ensures
        group_holds_within(group, cart, depth),
{
}

/// A group without criteria holds if it is an `And` group and does not hold
/// if it is an `Or` group, at every level of nesting that evaluation
/// reaches.
pub proof fn empty_group_holds_iff_and(group: GroupView, cart: CartView, depth: nat)
    requires
        depth > 0,
        group.criteria.len() == 0,
    ensures
        group_holds_within(group, cart, depth) == (group.operator is And),
{
}

/// A group holds in fewer levels only if it holds in more: raising the
/// nesting limit never turns a match into a miss.
pub proof fn deeper_limit_keeps_matches(group: GroupView, cart: CartView, depth: nat, more: nat)
    requires
        depth <= more,
        group_holds_within(group, cart, depth),
    ensures
        group_holds_within(group, cart, more),
    decreases depth,
{
    if depth > 0 {
        match group.operator {
            LogicalOperator::And => {
                assert forall|i: int| 0 <= i < group.criteria.len() implies criterion_holds_within(
                    #[trigger] group.criteria[i],
                    cart,
                    (more - 1) as nat,
                ) by {
                    assert(criterion_holds_within(group.criteria[i], cart, (depth - 1) as nat));
                    if let CriterionView::Group(inner) = group.criteria[i] {
                        deeper_limit_keeps_matches(
                            inner,
                            cart,
                            (depth - 1) as nat,
                            (more - 1) as nat,
                        );
                    }
                }
            },
            LogicalOperator::Or => {
                let i = choose|i: int|
                    0 <= i < group.criteria.len() && criterion_holds_within(
                        #[trigger] group.criteria[i],
                        cart,
                        (depth - 1) as nat,
                    );
                if let CriterionView::Group(inner) = group.criteria[i] {
                    deeper_limit_keeps_matches(inner, cart, (depth - 1) as nat, (more - 1) as nat);
                }
                assert(criterion_holds_within(group.criteria[i], cart, (more - 1) as nat));
            },
        }
    }
}

/// A condition on a path that names no field does not hold, whatever its
/// operator, its literal, and the cart.
pub proof fn condition_on_unknown_field_fails(condition: ConditionView, cart: CartView)
    requires
        resolve(cart, condition.field) is None,
    ensures
        !condition_holds(condition, cart),
{
}

/// Whether a path names a field, and what kind of value the field holds,
/// depends on the path alone, not on the cart.
pub proof fn field_kind_depends_on_path_alone(path: Seq<char>, cart: CartView, other: CartView)
    ensures
        match (resolve(cart, path), resolve(other, path)) {
            (None, None) => true,
            (Some(a), Some(b)) => {
                &&& a is String <==> b is String
                &&& a is Number <==> b is Number
                &&& a is Bool <==> b is Bool
                &&& a is StringArray <==> b is StringArray
            },
            _ => false,
        },
{
}

/// Whether the conditions of a rule hold of the cart.
pub fn evaluate_rule(rule: &Rule, cart: &CartInput, library: &PatternLibrary) -> (r: bool)
    ensures
        r == rule_fires(rule@, cart@),
{
    evaluate_group(&rule.conditions, cart, library)
}

/// Whether a group holds of the cart. Criteria are tried in order, and the
/// walk stops at the first one that settles the answer.
pub fn evaluate_group(group: &ConditionGroup, cart: &CartInput, library: &PatternLibrary) -> (r:
    bool)
    ensures
        r == group_holds(group@, cart@),
{
    evaluate_group_within(group, cart, library, MAX_NESTING_DEPTH)
}

/// Whether a criterion of an outermost group holds of the cart.
pub fn evaluate_criterion(criterion: &Criterion, cart: &CartInput, library: &PatternLibrary) -> (r:
    bool)
    ensures
        r == criterion_holds(criterion@, cart@),
{
    evaluate_criterion_within(criterion, cart, library, MAX_NESTING_DEPTH - 1)
}

/// Whether a group holds when `depth` more levels may be entered.
pub fn evaluate_group_within(
    group: &ConditionGroup,
    cart: &CartInput,
    library: &PatternLibrary,
    depth: usize,
) -> (r: bool)
    ensures
        r == group_holds_within(group@, cart@, depth as nat),
    decreases depth, 0nat,
{
    if depth == 0 {
        return false;
    }
    let mut i: usize = 0;
    match group.operator {
        LogicalOperator::And => {
            while i < group.criteria.len()
                invariant
                    0 <= i <= group.criteria.len(),
                    depth > 0,
                    group.operator is And,
                    group@.criteria.len() == group.criteria.len(),
                    forall|j: int|
                        0 <= j < i ==> criterion_holds_within(
                            #[trigger] group@.criteria[j],
                            cart@,
                            (depth - 1) as nat,
                        ),
                decreases group.criteria.len() - i,
            {
                assert(group@.criteria[i as int] == group.criteria[i as int]@);
                if !evaluate_criterion_within(&group.criteria[i], cart, library, depth - 1) {
                    return false;
                }
                i += 1;
            }
            true
        },
        LogicalOperator::Or => {
            while i < group.criteria.len()
                invariant
                    0 <= i <= group.criteria.len(),
                    depth > 0,
                    group.operator is Or,
                    group@.criteria.len() == group.criteria.len(),
                    forall|j: int|
                        0 <= j < i ==> !criterion_holds_within(
                            #[trigger] group@.criteria[j],
                            cart@,
                            (depth - 1) as nat,
                        ),
                decreases group.criteria.len() - i,
            {
                assert(group@.criteria[i as int] == group.criteria[i as int]@);
                if evaluate_criterion_within(&group.criteria[i], cart, library, depth - 1) {
                    return true;
                }
                i += 1;
            }
            false
        },
    }
}

/// Whether a criterion holds when `depth` more levels may be entered.
pub fn evaluate_criterion_within(
    criterion: &Criterion,
    cart: &CartInput,
    library: &PatternLibrary,
    depth: usize,
) -> (r: bool)
    ensures
        r == criterion_holds_within(criterion@, cart@, depth as nat),
    decreases depth, 1nat,
{
    match criterion {
        Criterion::Condition(condition) => evaluate_condition(condition, cart, library),
        Criterion::Group(group) => evaluate_group_within(group, cart, library, depth),
    }
}

/// Whether a condition holds of the cart: the field is resolved, then
/// compared. A field that does not resolve is never compared.
pub fn evaluate_condition(condition: &Condition, cart: &CartInput, library: &PatternLibrary) -> (r:
    bool)
    ensures
        r == condition_holds(condition@, cart@),
{
    let field_value = match cart.get_field(condition.field.as_str()) {
        Some(v) => v,
        None => { return false; },
    };
    compare(&field_value, &condition.operator, &condition.value, condition.is_preset, library)
}

/// Whether evaluating a group can run a pattern match.
pub fn rule_uses_regex(group: &ConditionGroup) -> (r: bool)
    ensures
        r == uses_regex(group@),
{
    uses_regex_below(group, MAX_NESTING_DEPTH)
}

/// Whether a group has a `RegexMatch` leaf within `depth` levels.
fn uses_regex_below(group: &ConditionGroup, depth: usize) -> (r: bool)
    ensures
        r == uses_regex_within(group@, depth as nat),
    decreases depth,
{
    if depth == 0 {
        return false;
    }
    let mut i: usize = 0;
    while i < group.criteria.len()
        invariant
            0 <= i <= group.criteria.len(),
            depth > 0,
            group@.criteria.len() == group.criteria.len(),
            forall|j: int|
                0 <= j < i ==> !criterion_uses_regex_within(
                    #[trigger] group@.criteria[j],
                    (depth - 1) as nat,
                ),
        decreases group.criteria.len() - i,
    {
        assert(group@.criteria[i as int] == group.criteria[i as int]@);
        let found = match &group.criteria[i] {
            Criterion::Condition(c) => c.operator == ComparisonOperator::RegexMatch,
            Criterion::Group(g) => uses_regex_below(g, depth - 1),
        };
        if found {
            return true;
        }
        i += 1;
    }
    false
}

} // verus!
