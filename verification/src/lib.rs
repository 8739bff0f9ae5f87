//! A bounded-latency rule engine: a configuration of boolean condition trees
//! is evaluated against one flat cart record, under guardrails on the number
//! of rules, on pattern-matching rules and on elapsed time.
//!
//! The parts, leaves first: [`models`] holds the configuration, the cart and
//! the resolution of field paths; [`patterns`] the library of preset
//! patterns; [`comparator`] the thirteen comparison operators; [`evaluator`]
//! the walk over a condition tree; [`driver`] the pass over the rules under
//! the guardrails. [`decimal`] and [`text`] hold the numbers and the text
//! primitives they all rest on.

pub mod decimal;
pub mod text;
pub mod models;
pub mod patterns;
pub mod comparator;
pub mod evaluator;
pub mod driver;

pub use driver::{evaluate_rules, evaluate_rules_with_config};
pub use models::{
    CartInput, ComparisonOperator, Condition, ConditionGroup, LogicalOperator, Rule, RulesConfig,
};
pub use patterns::get_preset_pattern;
