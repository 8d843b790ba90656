use jlox_in_rust::value::{Value, ValueError};

fn num(x: f64) -> Value<Vec<u8>> {
    Value::Number(x.to_bits())
}

#[test]
fn truthiness_table() {
    assert!(!Value::<Vec<u8>>::Nil.is_truthy());
    assert!(!Value::<Vec<u8>>::Boolean(false).is_truthy());
    assert!(Value::<Vec<u8>>::Boolean(true).is_truthy());
    assert!(num(0.0).is_truthy());
    assert!(num(f64::NAN).is_truthy());
    assert!(Value::String(b"".to_vec()).is_truthy());
}

#[test]
fn equality_is_type_aware() {
    let one = num(1.0);
    let one_text: Value<Vec<u8>> = Value::String(b"1".to_vec());
    assert_eq!(one.eq(&one_text).ok(), Some(Value::Boolean(false)));
    assert_eq!(one.eq(&num(1.0)).ok(), Some(Value::Boolean(true)));
    assert_eq!(num(f64::NAN).eq(&num(f64::NAN)).ok(), Some(Value::Boolean(false)));
    assert_eq!(num(0.0).eq(&num(-0.0)).ok(), Some(Value::Boolean(true)));
    assert_eq!(one.ne(&one_text).ok(), Some(Value::Boolean(true)));
}

#[test]
fn addition_adds_or_concatenates() {
    assert_eq!(num(2.0).add(&num(3.0)).ok(), Some(num(5.0)));
    let a: Value<Vec<u8>> = Value::String(b"ab".to_vec());
    let b: Value<Vec<u8>> = Value::String(b"cd".to_vec());
    assert_eq!(a.add(&b).ok(), Some(Value::String(b"abcd".to_vec())));
    match num(1.0).add(&Value::Nil) {
        Err(ValueError(message)) => {
            assert_eq!(message, "Operands must be two numbers or two strings.")
        }
        other => panic!("expected an error, got {other:?}"),
    }
}

#[test]
fn arithmetic_follows_ieee_754() {
    assert_eq!(num(10.0).sub(&num(4.0)).ok(), Some(num(6.0)));
    assert_eq!(num(2.5).mul(&num(4.0)).ok(), Some(num(10.0)));
    assert_eq!(num(1.0).div(&num(8.0)).ok(), Some(num(0.125)));
    assert_eq!(num(-1.0).div(&num(0.0)).ok(), Some(num(f64::NEG_INFINITY)));
    assert_eq!(num(5.0).neg().ok(), Some(num(-5.0)));
    assert_eq!(num(0.1).add(&num(0.2)).ok(), Some(num(0.1 + 0.2)));
}

#[test]
fn comparisons_reject_nan_ordering() {
    assert_eq!(num(f64::NAN).lt(&num(1.0)).ok(), Some(Value::Boolean(false)));
    assert_eq!(num(f64::NAN).ge(&num(1.0)).ok(), Some(Value::Boolean(false)));
    assert_eq!(num(f64::NEG_INFINITY).lt(&num(1.0)).ok(), Some(Value::Boolean(true)));
    assert_eq!(num(-0.0).le(&num(0.0)).ok(), Some(Value::Boolean(true)));
    assert_eq!(num(-0.0).lt(&num(0.0)).ok(), Some(Value::Boolean(false)));
}

#[test]
fn logical_not_inverts_truthiness() {
    assert_eq!(Value::<Vec<u8>>::Nil.not().ok(), Some(Value::Boolean(true)));
    assert_eq!(num(0.0).not().ok(), Some(Value::Boolean(false)));
}
