use heave::Comparison;
use heave::Condition;
use heave::Filter;

#[test]
fn new_filter_is_empty() {
    let filter = Filter::new();
    assert_eq!(filter.class(), &None);
    assert_eq!(filter.subclass(), &None);
    assert!(filter.conditions().is_empty());
}

#[test]
fn class_and_subclass_are_set() {
    let filter = Filter::new().with_class("item").with_subclass("subitem");
    assert_eq!(filter.class(), &Some("item".to_string()));
    assert_eq!(filter.subclass(), &Some("subitem".to_string()));
    assert!(filter.conditions().is_empty());
}

#[test]
fn conditions_keep_their_order() {
    let filter = Filter::new()
        .with_bool("in_stock", true)
        .with_unsigned_int("price", Comparison::Lesser, 100)
        .with_signed_int("sell_trend", Comparison::GreaterOrEqual, -5)
        .with_text("name", Comparison::StartsWith, "Item")
        .with_real("discount", Comparison::Greater, 0.25f64.to_bits());
    let conditions = filter.conditions();
    assert_eq!(conditions.len(), 5);
    assert_eq!(conditions[0], ("in_stock".to_string(), Comparison::Equal, Condition::Bool(true)));
    assert_eq!(conditions[1], ("price".to_string(), Comparison::Lesser, Condition::UnsignedInt(100)));
    assert_eq!(
        conditions[2],
        ("sell_trend".to_string(), Comparison::GreaterOrEqual, Condition::SignedInt(-5))
    );
    assert_eq!(conditions[3], ("name".to_string(), Comparison::StartsWith, Condition::Text("Item")));
    assert_eq!(
        conditions[4],
        ("discount".to_string(), Comparison::Greater, Condition::Real(0.25f64.to_bits()))
    );
    assert_eq!(f64::from_bits(match conditions[4].2 {
        Condition::Real(bits) => bits,
        _ => 0,
    }), 0.25);
}

#[test]
fn adding_a_condition_keeps_class_and_subclass() {
    let filter = Filter::new().with_class("item").with_bool("in_stock", false);
    assert_eq!(filter.class(), &Some("item".to_string()));
    assert_eq!(filter.subclass(), &None);
    assert_eq!(filter.conditions().len(), 1);
}

#[test]
fn default_filter_is_the_new_filter() {
    assert_eq!(Filter::default(), Filter::new());
}

#[test]
fn built_filter_holds_calls_in_order_and_last_class_wins() {
    let filter = Filter::new()
        .with_class("first")
        .with_text("name", Comparison::Contains, "x")
        .with_subclass("s1")
        .with_class("second")
        .with_bool("in_stock", true)
        .with_subclass("s2");
    assert_eq!(filter.class(), &Some("second".to_string()));
    assert_eq!(filter.subclass(), &Some("s2".to_string()));
    let conditions = filter.conditions();
    assert_eq!(conditions.len(), 2);
    assert_eq!(conditions[0].0, "name");
    assert_eq!(conditions[1].0, "in_stock");
    assert_eq!(filter.conditions(), conditions);
}
