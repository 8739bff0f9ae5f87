//! The data the engine works on: the rule configuration, the cart record,
//! and the typed values that conditions compare. Each type has a view, its
//! mathematical model: texts are sequences of characters, numbers are unit
//! counts, lists are sequences.

use vstd::prelude::*;
use std::collections::HashMap;
use crate::decimal::{Decimal, UNITS_PER_ONE};
use crate::text::same_text;

verus! {

/// How the criteria of a group combine.
#[derive(Debug, Clone, Copy, PartialEq, Eq, Structural)]
pub enum LogicalOperator {
    And,
    Or,
}

/// The comparisons a condition can make.
#[derive(Debug, Clone, Copy, PartialEq, Eq, Structural)]
pub enum ComparisonOperator {
    Equals,
    NotEquals,
    GreaterThan,
    GreaterThanOrEqual,
    LessThan,
    LessThanOrEqual,
    Contains,
    NotContains,
    StartsWith,
    EndsWith,
    RegexMatch,
    In,
    NotIn,
}

/// One element of a list literal.
#[derive(Debug)]
pub enum Scalar {
    String(String),
    Number(Decimal),
    Bool(bool),
}

/// The model of a [`Scalar`].
pub enum ScalarView {
    String(Seq<char>),
    Number(int),
    Bool(bool),
}

impl View for Scalar {
    type V = ScalarView;

    open spec fn view(&self) -> ScalarView {
        match *self {
            Scalar::String(s) => ScalarView::String(s@),
            Scalar::Number(n) => ScalarView::Number(n@),
            Scalar::Bool(b) => ScalarView::Bool(b),
        }
    }
}

impl Clone for Scalar {
    fn clone(&self) -> (copy: Scalar)
        ensures
            copy@ == self@,
    {
        match self {
            Scalar::String(s) => Scalar::String(s.clone()),
            Scalar::Number(n) => Scalar::Number(*n),
            Scalar::Bool(b) => Scalar::Bool(*b),
        }
    }
}

/// The value a condition compares a field against: a text, a number, a
/// truth value, or a list of scalars.
#[derive(Debug)]
pub enum Literal {
    String(String),
    Number(Decimal),
    Bool(bool),
    Array(Vec<Scalar>),
}

/// The model of a [`Literal`].
pub enum LiteralView {
    String(Seq<char>),
    Number(int),
    Bool(bool),
    Array(Seq<ScalarView>),
}

impl View for Literal {
    type V = LiteralView;

    open spec fn view(&self) -> LiteralView {
        match *self {
            Literal::String(s) => LiteralView::String(s@),
            Literal::Number(n) => LiteralView::Number(n@),
            Literal::Bool(b) => LiteralView::Bool(b),
            Literal::Array(items) => LiteralView::Array(items@.map_values(|s: Scalar| s@)),
        }
    }
}

impl Clone for Literal {
    fn clone(&self) -> (copy: Literal)
        ensures
            copy@ == self@,
    {
        match self {
            Literal::String(s) => Literal::String(s.clone()),
            Literal::Number(n) => Literal::Number(*n),
            Literal::Bool(b) => Literal::Bool(*b),
            Literal::Array(items) => {
                let mut copies: Vec<Scalar> = Vec::new();
                let mut i: usize = 0;
                while i < items.len()
                    invariant
                        0 <= i <= items.len(),
                        copies@.len() == i,
                        forall|j: int| 0 <= j < i ==> copies@[j]@ == items@[j]@,
                    decreases items.len() - i,
                {
                    copies.push(items[i].clone());
                    i += 1;
                }
                assert(copies@.map_values(|s: Scalar| s@) =~= items@.map_values(|s: Scalar| s@));
                Literal::Array(copies)
            },
        }
    }
}

/// What a field path resolves to.
#[derive(Debug, Clone)]
pub enum FieldValue {
    String(String),
    Number(Decimal),
    Bool(bool),
    StringArray(Vec<String>),
}

/// The model of a [`FieldValue`].
pub enum FieldValueView {
    String(Seq<char>),
    Number(int),
    Bool(bool),
    StringArray(Seq<Seq<char>>),
}

impl View for FieldValue {
    type V = FieldValueView;

    open spec fn view(&self) -> FieldValueView {
        match *self {
            FieldValue::String(s) => FieldValueView::String(s@),
            FieldValue::Number(n) => FieldValueView::Number(n@),
            FieldValue::Bool(b) => FieldValueView::Bool(b),
            FieldValue::StringArray(items) => FieldValueView::StringArray(
                items@.map_values(|s: String| s@),
            ),
        }
    }
}

/// A leaf of a condition tree: one field compared against one literal.
#[derive(Debug)]
pub struct Condition {
    pub field: String,
    pub operator: ComparisonOperator,
    pub value: Literal,
    /// When set, `value` names a preset pattern instead of spelling one out.
    pub is_preset: bool,
}

/// The model of a [`Condition`].
pub struct ConditionView {
    pub field: Seq<char>,
    pub operator: ComparisonOperator,
    pub value: LiteralView,
    pub is_preset: bool,
}

impl View for Condition {
    type V = ConditionView;

    open spec fn view(&self) -> ConditionView {
        ConditionView {
            field: self.field@,
            operator: self.operator,
            value: self.value@,
            is_preset: self.is_preset,
        }
    }
}

impl Clone for Condition {
    fn clone(&self) -> (copy: Condition)
        ensures
            copy@ == self@,
    {
        Condition {
            field: self.field.clone(),
            operator: self.operator,
            value: self.value.clone(),
            is_preset: self.is_preset,
        }
    }
}

/// Criteria combined by one logical operator. The list may be empty.
#[derive(Debug)]
pub struct ConditionGroup {
    pub operator: LogicalOperator,
    pub criteria: Vec<Criterion>,
}

/// A node of a condition tree: a leaf or a nested group.
#[derive(Debug)]
pub enum Criterion {
    Condition(Condition),
    Group(ConditionGroup),
}

/// The model of a [`ConditionGroup`].
pub struct GroupView {
    pub operator: LogicalOperator,
    pub criteria: Seq<CriterionView>,
}

/// The model of a [`Criterion`].
pub enum CriterionView {
    Condition(ConditionView),
    Group(GroupView),
}

/// The model of a group: the operator, and the models of its criteria.
pub open spec fn group_view(group: ConditionGroup) -> GroupView
    decreases group, 1nat,
{
    GroupView {
        operator: group.operator,
        criteria: Seq::new(
            group.criteria@.len(),
            |i: int|
                if 0 <= i < group.criteria@.len() {
                    criterion_view(group.criteria@[i])
                } else {
                    arbitrary()
                },
        ),
    }
}

/// The model of a criterion.
pub open spec fn criterion_view(criterion: Criterion) -> CriterionView
    decreases criterion, 0nat,
{
    match criterion {
        Criterion::Condition(c) => CriterionView::Condition(c@),
        Criterion::Group(g) => CriterionView::Group(group_view(g)),
    }
}

impl View for ConditionGroup {
    type V = GroupView;

    open spec fn view(&self) -> GroupView {
        group_view(*self)
    }
}

impl View for Criterion {
    type V = CriterionView;

    open spec fn view(&self) -> CriterionView {
        criterion_view(*self)
    }
}

impl Clone for ConditionGroup {
    fn clone(&self) -> (copy: ConditionGroup)
        ensures
            copy@ == self@,
        decreases *self, 1nat,
    {
        let mut criteria: Vec<Criterion> = Vec::new();
        let mut i: usize = 0;
        while i < self.criteria.len()
            invariant
                0 <= i <= self.criteria.len(),
                criteria@.len() == i,
                forall|j: int| 0 <= j < i ==> criteria@[j]@ == self.criteria@[j]@,
            decreases self.criteria.len() - i,
        {
            criteria.push(self.criteria[i].clone());
            i += 1;
        }
        let copy = ConditionGroup { operator: self.operator, criteria };
        assert(copy@.criteria =~= self@.criteria);
        copy
    }
}

impl Clone for Criterion {
    fn clone(&self) -> (copy: Criterion)
        ensures
            copy@ == self@,
        decreases *self, 0nat,
    {
        match self {
            Criterion::Condition(c) => Criterion::Condition(c.clone()),
            Criterion::Group(g) => Criterion::Group(g.clone()),
        }
    }
}

/// A condition tree with the message to report when it holds.
#[derive(Debug)]
pub struct Rule {
    pub id: String,
    pub name: String,
    pub complexity: u32,
    pub enabled: bool,
    pub error_message: String,
    pub conditions: ConditionGroup,
}

/// The model of a [`Rule`].
pub struct RuleView {
    pub id: Seq<char>,
    pub name: Seq<char>,
    pub complexity: nat,
    pub enabled: bool,
    pub error_message: Seq<char>,
    pub conditions: GroupView,
}

impl View for Rule {
    type V = RuleView;

    open spec fn view(&self) -> RuleView {
        RuleView {
            id: self.id@,
            name: self.name@,
            complexity: self.complexity as nat,
            enabled: self.enabled,
            error_message: self.error_message@,
            conditions: self.conditions@,
        }
    }
}

impl Clone for Rule {
    fn clone(&self) -> (copy: Rule)
        ensures
            copy@ == self@,
    {
        Rule {
            id: self.id.clone(),
            name: self.name.clone(),
            complexity: self.complexity,
            enabled: self.enabled,
            error_message: self.error_message.clone(),
            conditions: self.conditions.clone(),
        }
    }
}

/// The rules of one shop, in the order in which they are evaluated.
#[derive(Debug)]
pub struct RulesConfig {
    pub version: String,
    pub total_complexity: u32,
    pub rules: Vec<Rule>,
}

/// The model of a [`RulesConfig`].
pub struct RulesConfigView {
    pub version: Seq<char>,
    pub total_complexity: nat,
    pub rules: Seq<RuleView>,
}

impl View for RulesConfig {
    type V = RulesConfigView;

    open spec fn view(&self) -> RulesConfigView {
        RulesConfigView {
            version: self.version@,
            total_complexity: self.total_complexity as nat,
            rules: self.rules@.map_values(|r: Rule| r@),
        }
    }
}

impl Clone for RulesConfig {
    fn clone(&self) -> (copy: RulesConfig)
        ensures
            copy@ == self@,
    {
        let mut rules: Vec<Rule> = Vec::new();
        let mut i: usize = 0;
        while i < self.rules.len()
            invariant
                0 <= i <= self.rules.len(),
                rules@.len() == i,
                forall|j: int| 0 <= j < i ==> rules@[j]@ == self.rules@[j]@,
            decreases self.rules.len() - i,
        {
            rules.push(self.rules[i].clone());
            i += 1;
        }
        let copy = RulesConfig {
            version: self.version.clone(),
            total_complexity: self.total_complexity,
            rules,
        };
        assert(copy@.rules =~= self@.rules);
        copy
    }
}

/// A postal address.
#[derive(Debug, Clone)]
pub struct Address {
    pub address1: String,
    pub address2: String,
    pub city: String,
    pub province: String,
    pub province_code: String,
    pub country: String,
    pub country_code: String,
    pub zip: String,
}

/// The model of an [`Address`].
pub struct AddressView {
    pub address1: Seq<char>,
    pub address2: Seq<char>,
    pub city: Seq<char>,
    pub province: Seq<char>,
    pub province_code: Seq<char>,
    pub country: Seq<char>,
    pub country_code: Seq<char>,
    pub zip: Seq<char>,
}

impl View for Address {
    type V = AddressView;

    open spec fn view(&self) -> AddressView {
        AddressView {
            address1: self.address1@,
            address2: self.address2@,
            city: self.city@,
            province: self.province@,
            province_code: self.province_code@,
            country: self.country@,
            country_code: self.country_code@,
            zip: self.zip@,
        }
    }
}

/// The address with every line empty.
pub open spec fn empty_address() -> AddressView {
    AddressView {
        address1: Seq::empty(),
        address2: Seq::empty(),
        city: Seq::empty(),
        province: Seq::empty(),
        province_code: Seq::empty(),
        country: Seq::empty(),
        country_code: Seq::empty(),
        zip: Seq::empty(),
    }
}

impl Default for Address {
    fn default() -> (a: Address)
        ensures
            a@ == empty_address(),
    {
        Address {
            address1: String::new(),
            address2: String::new(),
            city: String::new(),
            province: String::new(),
            province_code: String::new(),
            country: String::new(),
            country_code: String::new(),
            zip: String::new(),
        }
    }
}

/// One line of a cart. No field path reaches into the lines.
#[derive(Debug, Clone)]
pub struct LineItem {
    pub product_id: String,
    pub variant_id: String,
    pub sku: String,
    pub vendor: String,
    pub quantity: u32,
    pub price: Decimal,
    /// Custom properties, by key.
    pub properties: HashMap<String, String>,
}

impl Default for LineItem {
    fn default() -> (item: LineItem)
        ensures
            item.product_id@.len() == 0,
            item.variant_id@.len() == 0,
            item.sku@.len() == 0,
            item.vendor@.len() == 0,
            item.quantity == 0,
            item.price@ == 0,
            item.properties@.len() == 0,
    {
        LineItem {
            product_id: String::new(),
            variant_id: String::new(),
            sku: String::new(),
            vendor: String::new(),
            quantity: 0,
            price: Decimal::from_units(0),
            properties: HashMap::new(),
        }
    }
}

/// The record that rules are evaluated against.
#[derive(Debug, Clone)]
pub struct CartInput {
    pub total: Decimal,
    pub subtotal: Decimal,
    pub quantity: u32,
    pub total_weight: Decimal,
    pub customer_tags: Vec<String>,
    pub shipping_address: Address,
    pub line_items: Vec<LineItem>,
}

/// The model of a [`CartInput`]: what field paths can reach.
pub struct CartView {
    pub total: int,
    pub subtotal: int,
    pub quantity: nat,
    pub total_weight: int,
    pub customer_tags: Seq<Seq<char>>,
    pub shipping_address: AddressView,
}

impl View for CartInput {
    type V = CartView;

    open spec fn view(&self) -> CartView {
        CartView {
            total: self.total@,
            subtotal: self.subtotal@,
            quantity: self.quantity as nat,
            total_weight: self.total_weight@,
            customer_tags: self.customer_tags@.map_values(|s: String| s@),
            shipping_address: self.shipping_address@,
        }
    }
}

/// The empty cart: every number zero, every text and list empty.
pub open spec fn empty_cart() -> CartView {
    CartView {
        total: 0,
        subtotal: 0,
        quantity: 0,
        total_weight: 0,
        customer_tags: Seq::empty(),
        shipping_address: empty_address(),
    }
}

impl Default for CartInput {
    fn default() -> (cart: CartInput)
        ensures
            cart@ == empty_cart(),
            cart.line_items@.len() == 0,
    {
        let cart = CartInput {
            total: Decimal::from_units(0),
            subtotal: Decimal::from_units(0),
            quantity: 0,
            total_weight: Decimal::from_units(0),
            customer_tags: Vec::new(),
            shipping_address: Address::default(),
            line_items: Vec::new(),
        };
        assert(cart@.customer_tags =~= Seq::empty());
        cart
    }
}

/// What a field path resolves to on a cart. The paths are a fixed set; any
/// other text resolves to nothing. Which kind of value a path gives depends
/// on the path alone, and a count is given as a number like any other.
pub open spec fn resolve(cart: CartView, path: Seq<char>) -> Option<FieldValueView> {
    if path == "cart.total"@ {
        Some(FieldValueView::Number(cart.total))
    } else if path == "cart.subtotal"@ {
        Some(FieldValueView::Number(cart.subtotal))
    } else if path == "cart.quantity"@ {
        Some(FieldValueView::Number(cart.quantity * UNITS_PER_ONE))
    } else if path == "cart.total_weight"@ {
        Some(FieldValueView::Number(cart.total_weight))
    } else if path == "customer.tags"@ {
        Some(FieldValueView::StringArray(cart.customer_tags))
    } else if path == "shipping_address.address1"@ {
        Some(FieldValueView::String(cart.shipping_address.address1))
    } else if path == "shipping_address.address2"@ {
        Some(FieldValueView::String(cart.shipping_address.address2))
    } else if path == "shipping_address.city"@ {
        Some(FieldValueView::String(cart.shipping_address.city))
    } else if path == "shipping_address.province"@ {
        Some(FieldValueView::String(cart.shipping_address.province))
    } else if path == "shipping_address.province_code"@ {
        Some(FieldValueView::String(cart.shipping_address.province_code))
    } else if path == "shipping_address.country"@ {
        Some(FieldValueView::String(cart.shipping_address.country))
    } else if path == "shipping_address.country_code"@ {
        Some(FieldValueView::String(cart.shipping_address.country_code))
    } else if path == "shipping_address.zip"@ {
        Some(FieldValueView::String(cart.shipping_address.zip))
    } else {
        None
    }
}

/// A copy of a list of texts.
fn copy_texts(items: &Vec<String>) -> (copy: Vec<String>)
    ensures
        copy@.map_values(|s: String| s@) == items@.map_values(|s: String| s@),
{
    let mut copy: Vec<String> = Vec::new();
    let mut i: usize = 0;
    while i < items.len()
        invariant
            0 <= i <= items.len(),
            copy@.len() == i,
            forall|j: int| 0 <= j < i ==> copy@[j]@ == items@[j]@,
        decreases items.len() - i,
    {
        copy.push(items[i].clone());
        i += 1;
    }
    assert(copy@.map_values(|s: String| s@) =~= items@.map_values(|s: String| s@));
    copy
}

impl CartInput {
    /// The value at a field path, such as `cart.total` or
    /// `shipping_address.zip`; `None` for a path that names no field.
    pub fn get_field(&self, path: &str) -> (value: Option<FieldValue>)
        ensures
            match value {
                Some(v) => resolve(self@, path@) == Some(v@),
                None => resolve(self@, path@) is None,
            },
    {
        if same_text(path, "cart.total") {
            Some(FieldValue::Number(self.total))
        } else if same_text(path, "cart.subtotal") {
            Some(FieldValue::Number(self.subtotal))
        } else if same_text(path, "cart.quantity") {
            Some(FieldValue::Number(Decimal::from_integer(self.quantity as i64)))
        } else if same_text(path, "cart.total_weight") {
            Some(FieldValue::Number(self.total_weight))
        } else if same_text(path, "customer.tags") {
            Some(FieldValue::StringArray(copy_texts(&self.customer_tags)))
        } else if same_text(path, "shipping_address.address1") {
            Some(FieldValue::String(self.shipping_address.address1.clone()))
        } else if same_text(path, "shipping_address.address2") {
            Some(FieldValue::String(self.shipping_address.address2.clone()))
        } else if same_text(path, "shipping_address.city") {
            Some(FieldValue::String(self.shipping_address.city.clone()))
        } else if same_text(path, "shipping_address.province") {
            Some(FieldValue::String(self.shipping_address.province.clone()))
        } else if same_text(path, "shipping_address.province_code") {
            Some(FieldValue::String(self.shipping_address.province_code.clone()))
        } else if same_text(path, "shipping_address.country") {
            Some(FieldValue::String(self.shipping_address.country.clone()))
        } else if same_text(path, "shipping_address.country_code") {
            Some(FieldValue::String(self.shipping_address.country_code.clone()))
        } else if same_text(path, "shipping_address.zip") {
            Some(FieldValue::String(self.shipping_address.zip.clone()))
        } else {
            None
        }
    }
}

} // verus!
