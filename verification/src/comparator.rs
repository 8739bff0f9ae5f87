//! The comparator: thirteen operators, each a total function of a field
//! value and a literal. A pair of kinds that an operator does not relate,
//! an unknown preset and a pattern that does not compile all come out as
//! "does not match"; nothing here fails. That holds of the negated
//! operators too: `NotEquals`, `NotContains` and `NotIn` match only where
//! their positive counterpart is defined and does not match.

use vstd::prelude::*;
use crate::decimal::nearly_equal;
use crate::models::{
    ComparisonOperator, FieldValue, FieldValueView, Literal, LiteralView, Scalar, ScalarView,
};
use crate::patterns::{
    matches_pattern, pattern_matches, preset_matches, PatternLibrary, PresetPattern,
};
use crate::text::{
    contains_text, ends_with_text, equal_ignoring_case, has_prefix, has_substring, has_suffix,
    lowercased, same_ignoring_case, starts_with_text, to_lowercase,
};

verus! {

/// Equality. Texts are equal when they hold the same characters, case
/// included; numbers when they are within the tolerance; truth values when
/// they are the same. Values of different kinds are never equal.
pub open spec fn equals_spec(field: FieldValueView, literal: LiteralView) -> bool {
    match (field, literal) {
        (FieldValueView::String(s), LiteralView::String(cv)) => s == cv,
        (FieldValueView::Number(n), LiteralView::Number(cv)) => nearly_equal(n, cv),
        (FieldValueView::Bool(b), LiteralView::Bool(cv)) => b == cv,
        _ => false,
    }
}

/// Equality is defined for the pair: both are texts, both numbers, or both
/// truth values.
pub open spec fn same_kind(field: FieldValueView, literal: LiteralView) -> bool {
    match (field, literal) {
        (FieldValueView::String(_), LiteralView::String(_)) => true,
        (FieldValueView::Number(_), LiteralView::Number(_)) => true,
        (FieldValueView::Bool(_), LiteralView::Bool(_)) => true,
        _ => false,
    }
}

/// Inequality: the two are of the same kind and not equal.
pub open spec fn not_equals_spec(field: FieldValueView, literal: LiteralView) -> bool {
    same_kind(field, literal) && !equals_spec(field, literal)
}

/// The order that one of the four ordering operators asks for; false for
/// any other operator.
pub open spec fn in_order(operator: ComparisonOperator, n: int, cv: int) -> bool {
    match operator {
        ComparisonOperator::GreaterThan => n > cv,
        ComparisonOperator::GreaterThanOrEqual => n >= cv,
        ComparisonOperator::LessThan => n < cv,
        ComparisonOperator::LessThanOrEqual => n <= cv,
        _ => false,
    }
}

/// Ordering: a number against a number, exactly. Anything else is false.
pub open spec fn numeric_spec(
    field: FieldValueView,
    operator: ComparisonOperator,
    literal: LiteralView,
) -> bool {
    match (field, literal) {
        (FieldValueView::Number(n), LiteralView::Number(cv)) => in_order(operator, n, cv),
        _ => false,
    }
}

/// One of the texts equals `wanted`, ignoring case.
pub open spec fn has_member(items: Seq<Seq<char>>, wanted: Seq<char>) -> bool {
    exists|i: int| 0 <= i < items.len() && same_ignoring_case(#[trigger] items[i], wanted)
}

/// Containment, ignoring case: of a text in a text field, as a substring;
/// of a text in a list field, as a whole element.
pub open spec fn contains_spec(field: FieldValueView, literal: LiteralView) -> bool {
    match (field, literal) {
        (FieldValueView::String(s), LiteralView::String(cv)) => has_substring(
            lowercased(s),
            lowercased(cv),
        ),
        (FieldValueView::StringArray(items), LiteralView::String(cv)) => has_member(items, cv),
        _ => false,
    }
}

/// Containment is defined for the pair: a text literal, and a field that is
/// a text or a list of texts.
pub open spec fn can_contain(field: FieldValueView, literal: LiteralView) -> bool {
    literal is String && (field is String || field is StringArray)
}

/// The field is of a kind that can contain the text, and does not.
pub open spec fn not_contains_spec(field: FieldValueView, literal: LiteralView) -> bool {
    can_contain(field, literal) && !contains_spec(field, literal)
}

/// A text field begins with a text literal, ignoring case.
pub open spec fn starts_with_spec(field: FieldValueView, literal: LiteralView) -> bool {
    match (field, literal) {
        (FieldValueView::String(s), LiteralView::String(cv)) => has_prefix(
            lowercased(s),
            lowercased(cv),
        ),
        _ => false,
    }
}

/// A text field ends with a text literal, ignoring case.
pub open spec fn ends_with_spec(field: FieldValueView, literal: LiteralView) -> bool {
    match (field, literal) {
        (FieldValueView::String(s), LiteralView::String(cv)) => has_suffix(
            lowercased(s),
            lowercased(cv),
        ),
        _ => false,
    }
}

/// A text field matches a pattern. With `is_preset` the literal names a
/// preset, and an unknown name matches nothing; without it the literal is
/// the pattern itself, and one that does not compile matches nothing.
pub open spec fn regex_spec(field: FieldValueView, literal: LiteralView, is_preset: bool) -> bool {
    match (field, literal) {
        (FieldValueView::String(s), LiteralView::String(p)) => if is_preset {
            preset_matches(p, s)
        } else {
            pattern_matches(p, s)
        },
        _ => false,
    }
}

/// One of the scalars is a text that equals `wanted`, ignoring case.
pub open spec fn lists_text(items: Seq<ScalarView>, wanted: Seq<char>) -> bool {
    exists|i: int|
        0 <= i < items.len() && (#[trigger] items[i] matches ScalarView::String(vs)
            && same_ignoring_case(vs, wanted))
}

/// One of the scalars is a number within the tolerance of `wanted`.
pub open spec fn lists_number(items: Seq<ScalarView>, wanted: int) -> bool {
    exists|i: int|
        0 <= i < items.len() && (#[trigger] items[i] matches ScalarView::Number(vn)
            && nearly_equal(wanted, vn))
}

/// Membership of a text or number field in a list literal.
pub open spec fn in_spec(field: FieldValueView, literal: LiteralView) -> bool {
    match (field, literal) {
        (FieldValueView::String(s), LiteralView::Array(items)) => lists_text(items, s),
        (FieldValueView::Number(n), LiteralView::Array(items)) => lists_number(items, n),
        _ => false,
    }
}

/// Membership is defined for the pair: a list literal, and a field that is
/// a text or a number.
pub open spec fn can_list(field: FieldValueView, literal: LiteralView) -> bool {
    literal is Array && (field is String || field is Number)
}

/// The field is of a kind that the list can hold, and is not in it.
pub open spec fn not_in_spec(field: FieldValueView, literal: LiteralView) -> bool {
    can_list(field, literal) && !in_spec(field, literal)
}

/// What each of the thirteen operators decides.
pub open spec fn compare_spec(
    field: FieldValueView,
    operator: ComparisonOperator,
    literal: LiteralView,
    is_preset: bool,
) -> bool {
    match operator {
        ComparisonOperator::Equals => equals_spec(field, literal),
        ComparisonOperator::NotEquals => not_equals_spec(field, literal),
        ComparisonOperator::GreaterThan => numeric_spec(field, operator, literal),
        ComparisonOperator::GreaterThanOrEqual => numeric_spec(field, operator, literal),
        ComparisonOperator::LessThan => numeric_spec(field, operator, literal),
        ComparisonOperator::LessThanOrEqual => numeric_spec(field, operator, literal),
        ComparisonOperator::Contains => contains_spec(field, literal),
        ComparisonOperator::NotContains => not_contains_spec(field, literal),
        ComparisonOperator::StartsWith => starts_with_spec(field, literal),
        ComparisonOperator::EndsWith => ends_with_spec(field, literal),
        ComparisonOperator::RegexMatch => regex_spec(field, literal, is_preset),
        ComparisonOperator::In => in_spec(field, literal),
        ComparisonOperator::NotIn => not_in_spec(field, literal),
    }
}

/// Compares a field value against a literal under an operator.
pub fn compare(
    field_value: &FieldValue,
    operator: &ComparisonOperator,
    condition_value: &Literal,
    is_preset: bool,
    library: &PatternLibrary,
) -> (r: bool)
    ensures
        r == compare_spec(field_value@, *operator, condition_value@, is_preset),
{
    match operator {
        ComparisonOperator::Equals => compare_equals(field_value, condition_value),
        ComparisonOperator::NotEquals => compare_not_equals(field_value, condition_value),
        ComparisonOperator::GreaterThan => compare_numeric(field_value, operator, condition_value),
        ComparisonOperator::GreaterThanOrEqual => compare_numeric(
            field_value,
            operator,
            condition_value,
        ),
        ComparisonOperator::LessThan => compare_numeric(field_value, operator, condition_value),
        ComparisonOperator::LessThanOrEqual => compare_numeric(
            field_value,
            operator,
            condition_value,
        ),
        ComparisonOperator::Contains => compare_contains(field_value, condition_value),
        ComparisonOperator::NotContains => compare_not_contains(field_value, condition_value),
        ComparisonOperator::StartsWith => compare_starts_with(field_value, condition_value),
        ComparisonOperator::EndsWith => compare_ends_with(field_value, condition_value),
        ComparisonOperator::RegexMatch => compare_regex(
            field_value,
            condition_value,
            is_preset,
            library,
        ),
        ComparisonOperator::In => compare_in(field_value, condition_value),
        ComparisonOperator::NotIn => compare_not_in(field_value, condition_value),
    }
}

/// Equality of a field value and a literal of the same kind.
pub fn compare_equals(field_value: &FieldValue, condition_value: &Literal) -> (r: bool)
    ensures
        r == equals_spec(field_value@, condition_value@),
{
    match (field_value, condition_value) {
        (FieldValue::String(s), Literal::String(cv)) => *s == *cv,
        (FieldValue::Number(n), Literal::Number(cv)) => n.approx_eq(cv),
        (FieldValue::Bool(b), Literal::Bool(cv)) => *b == *cv,
        _ => false,
    }
}

/// Inequality of a field value and a literal of the same kind.
pub fn compare_not_equals(field_value: &FieldValue, condition_value: &Literal) -> (r: bool)
    ensures
        r == not_equals_spec(field_value@, condition_value@),
{
    let same_kind = match (field_value, condition_value) {
        (FieldValue::String(_), Literal::String(_)) => true,
        (FieldValue::Number(_), Literal::Number(_)) => true,
        (FieldValue::Bool(_), Literal::Bool(_)) => true,
        _ => false,
    };
    same_kind && !compare_equals(field_value, condition_value)
}

/// A number field against a number literal, under an ordering operator.
pub fn compare_numeric(
    field_value: &FieldValue,
    operator: &ComparisonOperator,
    condition_value: &Literal,
) -> (r: bool)
    ensures
        r == numeric_spec(field_value@, *operator, condition_value@),
{
    match (field_value, condition_value) {
        (FieldValue::Number(n), Literal::Number(cv)) => match operator {
            ComparisonOperator::GreaterThan => n.units > cv.units,
            ComparisonOperator::GreaterThanOrEqual => n.units >= cv.units,
            ComparisonOperator::LessThan => n.units < cv.units,
            ComparisonOperator::LessThanOrEqual => n.units <= cv.units,
            _ => false,
        },
        _ => false,
    }
}

/// Whether one of the texts equals `wanted`, ignoring case.
fn any_member_equals(items: &Vec<String>, wanted: &str) -> (r: bool)
    ensures
        r == has_member(items@.map_values(|s: String| s@), wanted@),
{
    let ghost views = items@.map_values(|s: String| s@);
    let mut i: usize = 0;
    while i < items.len()
        invariant
            0 <= i <= items.len(),
            views == items@.map_values(|s: String| s@),
            forall|j: int| 0 <= j < i ==> !same_ignoring_case(#[trigger] views[j], wanted@),
        decreases items.len() - i,
    {
        if equal_ignoring_case(items[i].as_str(), wanted) {
            assert(same_ignoring_case(views[i as int], wanted@));
            return true;
        }
        i += 1;
    }
    false
}

/// A text literal in a text field or in a list field.
pub fn compare_contains(field_value: &FieldValue, condition_value: &Literal) -> (r: bool)
    ensures
        r == contains_spec(field_value@, condition_value@),
{
    match (field_value, condition_value) {
        (FieldValue::String(s), Literal::String(cv)) => {
            let hay = to_lowercase(s.as_str());
            let needle = to_lowercase(cv.as_str());
            contains_text(hay.as_str(), needle.as_str())
        },
        (FieldValue::StringArray(items), Literal::String(cv)) => any_member_equals(
            items,
            cv.as_str(),
        ),
        _ => false,
    }
}

/// A text literal that is not in a text field or in a list field.
pub fn compare_not_contains(field_value: &FieldValue, condition_value: &Literal) -> (r: bool)
    ensures
        r == not_contains_spec(field_value@, condition_value@),
{
    let can_contain = match (field_value, condition_value) {
        (FieldValue::String(_), Literal::String(_)) => true,
        (FieldValue::StringArray(_), Literal::String(_)) => true,
        _ => false,
    };
    can_contain && !compare_contains(field_value, condition_value)
}

/// A text literal at the start of a text field.
pub fn compare_starts_with(field_value: &FieldValue, condition_value: &Literal) -> (r: bool)
    ensures
        r == starts_with_spec(field_value@, condition_value@),
{
    match (field_value, condition_value) {
        (FieldValue::String(s), Literal::String(cv)) => {
            let hay = to_lowercase(s.as_str());
            let needle = to_lowercase(cv.as_str());
            starts_with_text(hay.as_str(), needle.as_str())
        },
        _ => false,
    }
}

/// A text literal at the end of a text field.
pub fn compare_ends_with(field_value: &FieldValue, condition_value: &Literal) -> (r: bool)
    ensures
        r == ends_with_spec(field_value@, condition_value@),
{
    match (field_value, condition_value) {
        (FieldValue::String(s), Literal::String(cv)) => {
            let hay = to_lowercase(s.as_str());
            let needle = to_lowercase(cv.as_str());
            ends_with_text(hay.as_str(), needle.as_str())
        },
        _ => false,
    }
}

/// A text field against a preset of the library or a spelled-out pattern.
pub fn compare_regex(
    field_value: &FieldValue,
    condition_value: &Literal,
    is_preset: bool,
    library: &PatternLibrary,
) -> (r: bool)
    ensures
        r == regex_spec(field_value@, condition_value@, is_preset),
{
    let pattern_str = match condition_value {
        Literal::String(s) => s.as_str(),
        _ => { return false; },
    };
    let field_str = match field_value {
        FieldValue::String(s) => s.as_str(),
        _ => { return false; },
    };
    if is_preset {
        match PresetPattern::from_name(pattern_str) {
            Some(preset) => library.is_match(preset, field_str),
            None => false,
        }
    } else {
        matches_pattern(pattern_str, field_str)
    }
}

/// Whether one of the scalars is a text that equals `wanted`, ignoring case.
fn any_scalar_equals_text(items: &Vec<Scalar>, wanted: &str) -> (r: bool)
    ensures
        r == lists_text(items@.map_values(|s: Scalar| s@), wanted@),
{
    let ghost views = items@.map_values(|s: Scalar| s@);
    let mut i: usize = 0;
    while i < items.len()
        invariant
            0 <= i <= items.len(),
            views == items@.map_values(|s: Scalar| s@),
            forall|j: int|
                0 <= j < i ==> !(#[trigger] views[j] matches ScalarView::String(vs)
                    && same_ignoring_case(vs, wanted@)),
        decreases items.len() - i,
    {
        let found = match &items[i] {
            Scalar::String(vs) => equal_ignoring_case(vs.as_str(), wanted),
            _ => false,
        };
        if found {
            assert(views[i as int] matches ScalarView::String(vs) && same_ignoring_case(
                vs,
                wanted@,
            ));
            return true;
        }
        i += 1;
    }
    false
}

/// Whether one of the scalars is a number within the tolerance of `wanted`.
fn any_scalar_equals_number(items: &Vec<Scalar>, wanted: &crate::decimal::Decimal) -> (r: bool)
    ensures
        r == lists_number(items@.map_values(|s: Scalar| s@), wanted@),
{
    let ghost views = items@.map_values(|s: Scalar| s@);
    let mut i: usize = 0;
    while i < items.len()
        invariant
            0 <= i <= items.len(),
            views == items@.map_values(|s: Scalar| s@),
            forall|j: int|
                0 <= j < i ==> !(#[trigger] views[j] matches ScalarView::Number(vn)
                    && nearly_equal(wanted@, vn)),
        decreases items.len() - i,
    {
        let found = match &items[i] {
            Scalar::Number(vn) => wanted.approx_eq(vn),
            _ => false,
        };
        if found {
            assert(views[i as int] matches ScalarView::Number(vn) && nearly_equal(wanted@, vn));
            return true;
        }
        i += 1;
    }
    false
}

/// A text or number field among the elements of a list literal.
pub fn compare_in(field_value: &FieldValue, condition_value: &Literal) -> (r: bool)
    ensures
        r == in_spec(field_value@, condition_value@),
{
    match condition_value {
        Literal::Array(items) => match field_value {
            FieldValue::String(s) => any_scalar_equals_text(items, s.as_str()),
            FieldValue::Number(n) => any_scalar_equals_number(items, n),
            _ => false,
        },
        _ => false,
    }
}

/// A text or number field that is not among the elements of a list literal.
pub fn compare_not_in(field_value: &FieldValue, condition_value: &Literal) -> (r: bool)
    ensures
        r == not_in_spec(field_value@, condition_value@),
{
    let can_list = match (field_value, condition_value) {
        (FieldValue::String(_), Literal::Array(_)) => true,
        (FieldValue::Number(_), Literal::Array(_)) => true,
        _ => false,
    };
    can_list && !compare_in(field_value, condition_value)
}

} // verus!
