use logicflow::decimal::{Decimal, UNITS_PER_ONE};
use logicflow::models::{
    Address, CartInput, ComparisonOperator, Condition, ConditionGroup, Criterion, FieldValue,
    LineItem, Literal, LogicalOperator, Rule, RulesConfig, Scalar,
};

fn num(x: f64) -> Decimal {
    Decimal::from_units((x * 1e12).round() as i128)
}

fn full_cart() -> CartInput {
    CartInput {
        total: num(150.0),
        subtotal: num(140.0),
        quantity: 3,
        total_weight: num(2.5),
        customer_tags: vec!["returning".to_string(), "newsletter".to_string()],
        shipping_address: Address {
            address1: "123 Main Street".to_string(),
            address2: "Apt 4B".to_string(),
            city: "Los Angeles".to_string(),
            province: "California".to_string(),
            province_code: "CA".to_string(),
            country: "United States".to_string(),
            country_code: "US".to_string(),
            zip: "90210".to_string(),
        },
        line_items: vec![],
    }
}

#[test]
fn test_cart_get_field() {
    let cart = CartInput {
        total: num(150.0),
        shipping_address: Address {
            zip: "90210".to_string(),
            ..Default::default()
        },
        ..Default::default()
    };

    assert!(matches!(cart.get_field("cart.total"), Some(FieldValue::Number(n)) if n.units == num(150.0).units));
    assert!(matches!(cart.get_field("shipping_address.zip"), Some(FieldValue::String(s)) if s == "90210"));
    assert!(cart.get_field("invalid.field").is_none());
}

fn number_at(cart: &CartInput, path: &str) -> i128 {
    match cart.get_field(path) {
        Some(FieldValue::Number(n)) => n.units,
        other => panic!("{} gave {:?}", path, other),
    }
}

fn text_at(cart: &CartInput, path: &str) -> String {
    match cart.get_field(path) {
        Some(FieldValue::String(s)) => s,
        other => panic!("{} gave {:?}", path, other),
    }
}

#[test]
fn every_path_resolves_to_its_field() {
    let cart = full_cart();
    assert_eq!(number_at(&cart, "cart.total"), 150_000_000_000_000);
    assert_eq!(number_at(&cart, "cart.subtotal"), 140_000_000_000_000);
    assert_eq!(number_at(&cart, "cart.quantity"), 3_000_000_000_000);
    assert_eq!(number_at(&cart, "cart.total_weight"), 2_500_000_000_000);
    match cart.get_field("customer.tags") {
        Some(FieldValue::StringArray(tags)) => {
            assert_eq!(tags, vec!["returning".to_string(), "newsletter".to_string()])
        }
        other => panic!("customer.tags gave {:?}", other),
    }
    assert_eq!(text_at(&cart, "shipping_address.address1"), "123 Main Street");
    assert_eq!(text_at(&cart, "shipping_address.address2"), "Apt 4B");
    assert_eq!(text_at(&cart, "shipping_address.city"), "Los Angeles");
    assert_eq!(text_at(&cart, "shipping_address.province"), "California");
    assert_eq!(text_at(&cart, "shipping_address.province_code"), "CA");
    assert_eq!(text_at(&cart, "shipping_address.country"), "United States");
    assert_eq!(text_at(&cart, "shipping_address.country_code"), "US");
    assert_eq!(text_at(&cart, "shipping_address.zip"), "90210");
}

#[test]
fn a_count_resolves_to_a_number() {
    let mut cart = CartInput::default();
    assert_eq!(number_at(&cart, "cart.quantity"), 0);
    cart.quantity = u32::MAX;
    assert_eq!(number_at(&cart, "cart.quantity"), 4_294_967_295 * UNITS_PER_ONE);
}

#[test]
fn other_paths_resolve_to_nothing() {
    let cart = full_cart();
    for path in [
        "",
        ".",
        "cart",
        "cart.",
        ".total",
        "total",
        "cart.total.",
        "cart.total.cents",
        "cart..total",
        "Cart.Total",
        "cart.totals",
        "cart.tota",
        " cart.total",
        "customer",
        "customer.tag",
        "shipping_address",
        "shipping_address.address3",
        "shipping_address.zip.code",
        "billing_address.zip",
        "line_items.sku",
        "cart.line_items",
    ] {
        assert!(cart.get_field(path).is_none(), "{:?} resolved", path);
    }
}

#[test]
fn kind_of_value_depends_on_the_path_alone() {
    let empty = CartInput::default();
    let full = full_cart();
    for path in [
        "cart.total",
        "cart.subtotal",
        "cart.quantity",
        "cart.total_weight",
        "customer.tags",
        "shipping_address.address1",
        "shipping_address.zip",
        "missing.field",
    ] {
        let a = empty.get_field(path);
        let b = full.get_field(path);
        assert_eq!(
            a.as_ref().map(std::mem::discriminant),
            b.as_ref().map(std::mem::discriminant),
            "{:?}",
            path
        );
    }
}

#[test]
fn resolving_copies_and_leaves_the_cart_alone() {
    let cart = full_cart();
    let first = cart.get_field("customer.tags");
    if let Some(FieldValue::StringArray(mut tags)) = first {
        tags.push("changed".to_string());
    }
    assert_eq!(cart.customer_tags.len(), 2);
    match cart.get_field("customer.tags") {
        Some(FieldValue::StringArray(tags)) => assert_eq!(tags.len(), 2),
        other => panic!("customer.tags gave {:?}", other),
    }
}

#[test]
fn defaults_are_empty() {
    let cart = CartInput::default();
    assert_eq!(cart.total.units, 0);
    assert_eq!(cart.subtotal.units, 0);
    assert_eq!(cart.quantity, 0);
    assert_eq!(cart.total_weight.units, 0);
    assert!(cart.customer_tags.is_empty());
    assert!(cart.line_items.is_empty());
    let address = Address::default();
    for line in [
        &address.address1,
        &address.address2,
        &address.city,
        &address.province,
        &address.province_code,
        &address.country,
        &address.country_code,
        &address.zip,
        &cart.shipping_address.zip,
    ] {
        assert_eq!(line, "");
    }
    let item = LineItem::default();
    assert_eq!(item.product_id, "");
    assert_eq!(item.variant_id, "");
    assert_eq!(item.sku, "");
    assert_eq!(item.vendor, "");
    assert_eq!(item.quantity, 0);
    assert_eq!(item.price.units, 0);
    assert!(item.properties.is_empty());
}

#[test]
fn a_copy_of_a_configuration_is_equal_and_independent() {
    let leaf = Criterion::Condition(Condition {
        field: "shipping_address.country_code".to_string(),
        operator: ComparisonOperator::In,
        value: Literal::Array(vec![
            Scalar::String("US".to_string()),
            Scalar::Number(num(7.0)),
            Scalar::Bool(true),
        ]),
        is_preset: false,
    });
    let inner = Criterion::Group(ConditionGroup {
        operator: LogicalOperator::And,
        criteria: vec![leaf],
    });
    let config = RulesConfig {
        version: "1.0".to_string(),
        total_complexity: 3,
        rules: vec![Rule {
            id: "r1".to_string(),
            name: "Rule one".to_string(),
            complexity: 3,
            enabled: true,
            error_message: "Blocked".to_string(),
            conditions: ConditionGroup {
                operator: LogicalOperator::Or,
                criteria: vec![inner],
            },
        }],
    };

    let mut copy = config.clone();
    assert_eq!(format!("{:?}", copy), format!("{:?}", config));

    copy.rules[0].enabled = false;
    copy.rules[0].conditions.criteria.clear();
    copy.version.push_str("-draft");
    assert!(config.rules[0].enabled);
    assert_eq!(config.rules[0].conditions.criteria.len(), 1);
    assert_eq!(config.version, "1.0");
    assert_ne!(format!("{:?}", copy), format!("{:?}", config));
}
