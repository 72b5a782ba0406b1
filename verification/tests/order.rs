use heave::Condition;
use heave::Entity;
use heave::Value;
use std::cmp::Ordering;

/// A value with a float inside, ordered and compared as derived impls do.
#[derive(Debug, PartialEq, PartialOrd)]
enum Plain {
    Bool(bool),
    Real(f64),
    SignedInt(i64),
    Text(String),
    UnsignedInt(u64),
}

fn to_value(p: &Plain) -> Value {
    match p {
        Plain::Bool(b) => Value::Bool(*b),
        Plain::Real(r) => Value::Real(r.to_bits()),
        Plain::SignedInt(i) => Value::SignedInt(*i),
        Plain::Text(s) => Value::Text(s.clone()),
        Plain::UnsignedInt(u) => Value::UnsignedInt(*u),
    }
}

fn samples() -> Vec<Plain> {
    vec![
        Plain::Bool(false),
        Plain::Bool(true),
        Plain::Real(f64::NEG_INFINITY),
        Plain::Real(-2.5),
        Plain::Real(-0.0),
        Plain::Real(0.0),
        Plain::Real(1e-300),
        Plain::Real(3.0),
        Plain::Real(f64::INFINITY),
        Plain::Real(f64::NAN),
        Plain::SignedInt(i64::MIN),
        Plain::SignedInt(-1),
        Plain::SignedInt(0),
        Plain::SignedInt(i64::MAX),
        Plain::Text(String::new()),
        Plain::Text("ab".to_string()),
        Plain::Text("abc".to_string()),
        Plain::Text("abd".to_string()),
        Plain::Text("é".to_string()),
        Plain::Text("z".to_string()),
        Plain::UnsignedInt(0),
        Plain::UnsignedInt(u64::MAX),
    ]
}

#[test]
fn values_compare_as_their_payloads_do() {
    let plain = samples();
    for a in &plain {
        for b in &plain {
            let (x, y) = (to_value(a), to_value(b));
            assert_eq!(x == y, a == b, "{:?} == {:?}", a, b);
            assert_eq!(x.partial_cmp(&y), a.partial_cmp(b), "{:?} <=> {:?}", a, b);
        }
    }
}

#[test]
fn real_values_compare_as_floats() {
    let nan = Value::Real(f64::NAN.to_bits());
    assert_ne!(nan, nan);
    assert_eq!(nan.partial_cmp(&nan), None);
    assert_eq!(Value::Real(0.0f64.to_bits()), Value::Real((-0.0f64).to_bits()));
    assert!(Value::Real((-1.0f64).to_bits()) < Value::Real(0.5f64.to_bits()));
    assert!(Value::Bool(true) < Value::Real(f64::NEG_INFINITY.to_bits()));
    assert!(Value::Text("zzz".to_string()) < Value::UnsignedInt(0));
}

#[test]
fn conditions_compare_as_their_payloads_do() {
    let nan = Condition::Real(f64::NAN.to_bits());
    assert_ne!(nan, nan);
    assert_eq!(Condition::Real(0.0f64.to_bits()), Condition::Real((-0.0f64).to_bits()));
    assert_eq!(Condition::Text("ab"), Condition::Text("ab"));
    assert_ne!(Condition::Text("ab"), Condition::Text("abc"));
    assert_eq!(Condition::Text("ab").partial_cmp(&Condition::Text("abc")), Some(Ordering::Less));
    assert_eq!(Condition::SignedInt(3).partial_cmp(&Condition::SignedInt(-3)), Some(Ordering::Greater));
    assert_eq!(Condition::UnsignedInt(3).partial_cmp(&Condition::UnsignedInt(3)), Some(Ordering::Equal));
    assert!(Condition::Bool(true) < Condition::UnsignedInt(0));
    assert_eq!(
        Condition::Real(1.0f64.to_bits()).partial_cmp(&Condition::Real(f64::NAN.to_bits())),
        None
    );
}

#[test]
fn entities_equal_whatever_the_order_of_attributes() {
    let a = Entity::of_class("item").with_id("1").with_attribute("x", 1u32).with_attribute("y", "two");
    let b = Entity::of_class("item").with_id("1").with_attribute("y", "two").with_attribute("x", 1u32);
    assert_eq!(a, b);
    let c = b.clone().with_attribute("x", 2u32);
    assert_ne!(a, c);
    let d = a.clone().with_attribute("z", true);
    assert_ne!(a, d);
    assert_ne!(d, a);
    let e = a.clone().with_id("2");
    assert_ne!(a, e);
}

#[test]
fn entity_with_a_nan_attribute_is_not_equal_to_itself() {
    let a = Entity::of_class("item").with_attribute("r", Value::Real(f64::NAN.to_bits()));
    assert_ne!(a, a);
    let b = Entity::of_class("item").with_attribute("r", Value::Real((-0.0f64).to_bits()));
    let c = Entity::of_class("item").with_attribute("r", Value::Real(0.0f64.to_bits()));
    assert_eq!(b, c);
}
