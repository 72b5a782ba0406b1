use heave::FailedTo;
use heave::Value;

#[test]
fn from_builds_the_matching_variant() {
    assert_eq!(Value::from("abc"), Value::Text("abc".to_string()));
    assert_eq!(Value::from("abc".to_string()), Value::Text("abc".to_string()));
    assert_eq!(Value::from(7u32), Value::UnsignedInt(7));
    assert_eq!(Value::from(7u64), Value::UnsignedInt(7));
    assert_eq!(Value::from(-7i64), Value::SignedInt(-7));
    assert_eq!(Value::from(-7i32), Value::SignedInt(-7));
    assert_eq!(Value::from(true), Value::Bool(true));
    assert_eq!(Value::from(100u64), Value::from(100u32));
}

#[test]
fn conversions_round_trip() {
    assert_eq!(String::try_from(Value::from("x")), Ok("x".to_string()));
    assert_eq!(u32::try_from(Value::from(u32::MAX)), Ok(u32::MAX));
    assert_eq!(u64::try_from(Value::from(u64::MAX)), Ok(u64::MAX));
    assert_eq!(i64::try_from(Value::from(i64::MIN)), Ok(i64::MIN));
    assert_eq!(i32::try_from(Value::from(i32::MIN)), Ok(i32::MIN));
    assert_eq!(bool::try_from(Value::from(false)), Ok(false));
}

#[test]
fn conversion_of_another_kind_fails() {
    assert_eq!(String::try_from(Value::Bool(true)), Err(FailedTo::ConvertValue));
    assert_eq!(bool::try_from(Value::UnsignedInt(1)), Err(FailedTo::ConvertValue));
    assert_eq!(i64::try_from(Value::UnsignedInt(1)), Err(FailedTo::ConvertValue));
    assert_eq!(u64::try_from(Value::SignedInt(1)), Err(FailedTo::ConvertValue));
    assert_eq!(u32::try_from(Value::UnsignedInt(1 << 32)), Err(FailedTo::ConvertValue));
    assert_eq!(i32::try_from(Value::SignedInt(1 << 31)), Err(FailedTo::ConvertValue));
}

#[test]
fn clone_keeps_the_value() {
    let v = Value::Text("abc".to_string());
    assert_eq!(v.clone(), v);
    let r = Value::Real(2.5f64.to_bits());
    assert_eq!(r.clone(), r);
}

#[test]
fn display_text_of_booleans_is_one_or_zero() {
    assert_eq!(Value::Bool(true).display_text(), Some("1".to_string()));
    assert_eq!(Value::Bool(false).display_text(), Some("0".to_string()));
}

#[test]
fn display_text_of_integers_is_decimal() {
    assert_eq!(Value::UnsignedInt(0).display_text(), Some("0".to_string()));
    assert_eq!(Value::UnsignedInt(1200).display_text(), Some("1200".to_string()));
    assert_eq!(Value::UnsignedInt(u64::MAX).display_text(), Some(u64::MAX.to_string()));
    assert_eq!(Value::SignedInt(-120).display_text(), Some("-120".to_string()));
    assert_eq!(Value::SignedInt(i64::MIN).display_text(), Some(i64::MIN.to_string()));
    assert_eq!(Value::SignedInt(i64::MAX).display_text(), Some(i64::MAX.to_string()));
    for i in -1000i64..1000 {
        assert_eq!(Value::SignedInt(i).display_text(), Some(i.to_string()));
    }
}

#[test]
fn display_text_of_integers_reads_back() {
    for u in [0u64, 7, 10, 99, 100, 12345, u64::MAX] {
        let text = Value::UnsignedInt(u).display_text().unwrap();
        assert_eq!(text.parse::<u64>().unwrap(), u);
    }
}

#[test]
fn display_text_of_text_is_the_text() {
    assert_eq!(Value::Text("a b".to_string()).display_text(), Some("a b".to_string()));
    assert_eq!(Value::Text(String::new()).display_text(), Some(String::new()));
}

#[test]
fn display_text_of_a_real_is_left_to_the_caller() {
    assert_eq!(Value::Real(0.5f64.to_bits()).display_text(), None);
}
