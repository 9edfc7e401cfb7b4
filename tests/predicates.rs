use json_e::{is_equal, is_truthy, Number, Value};

fn uint(n: u64) -> Value {
    Value::Number(Number::PosInt(n))
}

fn neg(n: i64) -> Value {
    Value::Number(Number::NegInt(n))
}

fn float(x: f64) -> Value {
    Value::Number(Number::Float(x.to_bits()))
}

fn string(s: &str) -> Value {
    Value::String(s.to_string())
}

fn object(entries: Vec<(&str, Value)>) -> Value {
    Value::Object(entries.into_iter().map(|(k, v)| (k.to_string(), v)).collect())
}

fn samples() -> Vec<Value> {
    vec![
        Value::Null,
        Value::Bool(true),
        Value::Bool(false),
        uint(0),
        uint(1),
        neg(-1),
        float(0.0),
        float(-0.0),
        float(1.0),
        float(-1.5),
        string(""),
        string("a"),
        Value::Array(vec![]),
        Value::Array(vec![uint(1), uint(2)]),
        Value::Array(vec![float(1.0), uint(2)]),
        object(vec![]),
        object(vec![("a", uint(1)), ("b", uint(2))]),
        object(vec![("b", uint(2)), ("a", uint(1))]),
        object(vec![("a", Value::Array(vec![Value::Null]))]),
    ]
}

#[test]
fn truthy_zero_numbers() {
    assert!(!is_truthy(&uint(0)));
    assert!(!is_truthy(&float(0.0)));
    assert!(!is_truthy(&float(-0.0)));
}

#[test]
fn truthy_nonzero_numbers() {
    assert!(is_truthy(&uint(1)));
    assert!(is_truthy(&neg(-1)));
    assert!(is_truthy(&float(f64::NAN)));
    assert!(is_truthy(&float(0.5)));
    assert!(is_truthy(&uint(u64::MAX)));
    assert!(is_truthy(&neg(i64::MIN)));
}

#[test]
fn truthy_bools() {
    assert!(is_truthy(&Value::Bool(true)));
    assert!(!is_truthy(&Value::Bool(false)));
}

#[test]
fn truthy_null() {
    assert!(!is_truthy(&Value::Null));
}

#[test]
fn truthy_strings() {
    assert!(!is_truthy(&string("")));
    assert!(is_truthy(&string(" ")));
    assert!(is_truthy(&string("0")));
}

#[test]
fn truthy_arrays() {
    assert!(!is_truthy(&Value::Array(vec![])));
    assert!(is_truthy(&Value::Array(vec![Value::Null])));
}

#[test]
fn truthy_objects() {
    assert!(!is_truthy(&object(vec![])));
    assert!(is_truthy(&object(vec![("a", Value::Null)])));
}

#[test]
fn equal_integer_and_float() {
    assert!(is_equal(&uint(1), &float(1.0)));
    assert!(is_equal(&float(1.0), &uint(1)));
    assert!(is_equal(&neg(-1), &float(-1.0)));
    assert!(!is_equal(&uint(1), &float(1.5)));
}

#[test]
fn equal_different_integers() {
    assert!(!is_equal(&uint(1), &uint(2)));
    assert!(!is_equal(&neg(-1), &uint(1)));
}

#[test]
fn equal_integers_that_round_to_one_double() {
    let big: u64 = 1 << 53;
    assert!(is_equal(&uint(big), &uint(big + 1)));
    assert!(!is_equal(&uint(big), &uint(big + 2)));
}

#[test]
fn equal_zeros_of_either_sign() {
    assert!(is_equal(&float(0.0), &float(-0.0)));
    assert!(is_equal(&uint(0), &float(-0.0)));
}

#[test]
fn equal_across_variants() {
    assert!(!is_equal(&string("a"), &uint(1)));
    assert!(!is_equal(&Value::Null, &Value::Bool(false)));
    assert!(!is_equal(&uint(0), &Value::Bool(false)));
    assert!(!is_equal(&Value::Array(vec![]), &object(vec![])));
}

#[test]
fn equal_arrays_in_order() {
    let a = Value::Array(vec![uint(1), uint(2)]);
    let b = Value::Array(vec![uint(1), uint(2)]);
    let c = Value::Array(vec![uint(2), uint(1)]);
    assert!(is_equal(&a, &b));
    assert!(!is_equal(&a, &c));
    assert!(!is_equal(&a, &Value::Array(vec![uint(1)])));
}

#[test]
fn equal_nested_numbers_by_representation() {
    let ints = Value::Array(vec![uint(1)]);
    let floats = Value::Array(vec![float(1.0)]);
    assert!(!is_equal(&ints, &floats));
    assert!(is_equal(&Value::Array(vec![float(0.0)]), &Value::Array(vec![float(-0.0)])));
}

#[test]
fn equal_objects_whatever_the_order() {
    let a = object(vec![("a", uint(1)), ("b", uint(2))]);
    let b = object(vec![("b", uint(2)), ("a", uint(1))]);
    assert!(is_equal(&a, &b));
}

#[test]
fn unequal_objects() {
    let a = object(vec![("a", uint(1)), ("b", uint(2))]);
    assert!(!is_equal(&a, &object(vec![("a", uint(1))])));
    assert!(!is_equal(&object(vec![("a", uint(1))]), &a));
    assert!(!is_equal(&a, &object(vec![("a", uint(1)), ("b", uint(3))])));
    assert!(!is_equal(&a, &object(vec![("a", uint(1)), ("c", uint(2))])));
}

#[test]
fn equal_objects_later_entry_overrides() {
    let a = object(vec![("a", uint(1)), ("a", uint(2))]);
    let b = object(vec![("a", uint(2))]);
    let c = object(vec![("a", uint(1))]);
    assert!(is_equal(&a, &b));
    assert!(!is_equal(&a, &c));
    assert!(is_equal(&a, &a));
}

#[test]
fn equal_nested_structures() {
    let a = object(vec![("x", Value::Array(vec![object(vec![("y", string("z"))]), Value::Null]))]);
    let b = object(vec![("x", Value::Array(vec![object(vec![("y", string("z"))]), Value::Null]))]);
    let c = object(vec![("x", Value::Array(vec![object(vec![("y", string("w"))]), Value::Null]))]);
    assert!(is_equal(&a, &b));
    assert!(!is_equal(&a, &c));
}

#[test]
fn equal_is_symmetric_on_samples() {
    let left = samples();
    let right = samples();
    for l in &left {
        for r in &right {
            assert_eq!(is_equal(l, r), is_equal(r, l));
        }
    }
}

#[test]
fn equal_is_reflexive_without_nan() {
    let left = samples();
    let right = samples();
    for (l, r) in left.iter().zip(right.iter()) {
        assert!(is_equal(l, l));
        assert!(is_equal(l, r));
    }
}

#[test]
fn nan_is_not_equal_to_itself() {
    let nan = float(f64::NAN);
    assert!(!is_equal(&nan, &nan));
    let nested = Value::Array(vec![float(f64::NAN)]);
    assert!(!is_equal(&nested, &nested));
}
