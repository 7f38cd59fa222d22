use json_dom::value::{AccessError, Value, ValueType};

#[test]
fn object_insert_get_remove() {
    let mut v = Value::object();
    assert_eq!(v.insert("key".to_string(), Value::I64(42)), Ok(None));
    assert_eq!(v.get("key"), Some(&Value::I64(42)));
    assert_eq!(v.insert("key".to_string(), Value::I64(43)), Ok(Some(Value::I64(42))));
    assert_eq!(v.remove("key"), Ok(Some(Value::I64(43))));
    assert_eq!(v.get("key"), None);
    assert_eq!(v.remove("key"), Ok(None));
}

#[test]
fn array_push_pop_index() {
    let mut v = Value::array();
    v.push(Value::String("zero".to_string())).unwrap();
    v.push(Value::I64(1)).unwrap();
    assert_eq!(v.get_idx(0).unwrap().as_str(), Some("zero"));
    assert_eq!(v.get_idx(1), Some(&Value::I64(1)));
    assert_eq!(v.pop(), Ok(Some(Value::I64(1))));
    assert_eq!(v.pop(), Ok(Some(Value::String("zero".to_string()))));
    assert_eq!(v.pop(), Ok(None));
}

#[test]
fn wrong_container_errors() {
    let mut v = Value::null();
    assert_eq!(v.insert("k".to_string(), Value::Null), Err(AccessError::NotAnObject));
    assert_eq!(v.remove("k"), Err(AccessError::NotAnObject));
    assert_eq!(v.push(Value::Null), Err(AccessError::NotAnArray));
    assert_eq!(v.pop(), Err(AccessError::NotAnArray));
    assert_eq!(v, Value::Null);
    assert_eq!(AccessError::NotAnArray.message(), "The value is not an array");
    assert_eq!(AccessError::NotAnObject.message(), "The value is not an object");
    let mut a = Value::array();
    assert_eq!(a.insert("k".to_string(), Value::Null), Err(AccessError::NotAnObject));
    assert_eq!(a.get("k"), None);
    assert_eq!(Value::object().get_idx(0), None);
}

#[test]
fn narrowing_accessors() {
    let v = Value::I64(300);
    assert_eq!(v.as_i64(), Some(300));
    assert_eq!(v.as_i128(), Some(300));
    assert_eq!(v.as_i32(), Some(300));
    assert_eq!(v.as_i16(), Some(300));
    assert_eq!(v.as_i8(), None);
    assert!(!v.is_i8());
    assert_eq!(v.as_u64(), Some(300));
    assert_eq!(v.as_u128(), Some(300));
    assert_eq!(v.as_usize(), Some(300));
    assert_eq!(v.as_u32(), Some(300));
    assert_eq!(v.as_u16(), Some(300));
    assert_eq!(v.as_u8(), None);
    assert!(v.is_u16() && !v.is_u8());
    let n = Value::I64(-1);
    assert_eq!(n.as_u64(), None);
    assert_eq!(n.as_u8(), None);
    assert_eq!(n.as_i8(), Some(-1));
    assert_eq!(Value::I64(i64::MIN).as_i32(), None);
    assert_eq!(Value::I64(-129).as_i8(), None);
    assert_eq!(Value::I64(-128).as_i8(), Some(-128));
}

#[test]
fn float_accessors_refuse_integers() {
    let f = Value::F64(0.5f64.to_bits());
    assert_eq!(f.as_f64_bits(), Some(0.5f64.to_bits()));
    assert!(f.is_f64() && f.is_f64_castable());
    let i = Value::I64(1);
    assert_eq!(i.as_f64_bits(), None);
    assert!(!i.is_f64() && i.is_f64_castable());
    assert!(!Value::Null.is_f64_castable());
}

#[test]
fn value_types_and_predicates() {
    assert_eq!(Value::null().value_type(), ValueType::Null);
    assert_eq!(Value::Bool(true).value_type(), ValueType::Bool);
    assert_eq!(Value::I64(1).value_type(), ValueType::I64);
    assert_eq!(Value::F64(0).value_type(), ValueType::F64);
    assert_eq!(Value::String(String::new()).value_type(), ValueType::String);
    assert_eq!(Value::array().value_type(), ValueType::Array);
    assert_eq!(Value::object().value_type(), ValueType::Object);
    assert!(Value::null().is_null());
    assert!(Value::Bool(false).is_bool());
    assert_eq!(Value::Bool(false).as_bool(), Some(false));
    assert!(Value::array().is_array() && !Value::array().is_object());
    assert!(Value::object().is_object());
    assert!(Value::String("s".to_string()).is_str());
    assert!(Value::I64(1).is_i64() && Value::I64(1).is_i128() && Value::I64(1).is_u64());
    assert!(Value::I64(1).is_i32() && Value::I64(1).is_i16() && Value::I64(1).is_u32());
    assert!(Value::I64(1).is_u128() && Value::I64(1).is_usize());
}

#[test]
fn conversions_in_widen_exactly() {
    assert_eq!(Value::from(-5i8), Value::I64(-5));
    assert_eq!(Value::from(-300i16), Value::I64(-300));
    assert_eq!(Value::from(70000i32), Value::I64(70000));
    assert_eq!(Value::from(i64::MIN), Value::I64(i64::MIN));
    assert_eq!(Value::from(255u8), Value::I64(255));
    assert_eq!(Value::from(65535u16), Value::I64(65535));
    assert_eq!(Value::from(u32::MAX), Value::I64(4294967295));
    assert_eq!(Value::from(7u64), Value::I64(7));
    assert_eq!(Value::from(u64::MAX), Value::I64(-1));
    assert_eq!(Value::from(true), Value::Bool(true));
    assert_eq!(Value::from(()), Value::Null);
    assert_eq!(Value::from("s".to_string()).as_str(), Some("s"));
}

#[test]
fn equality_with_primitives_follows_accessors() {
    let v = Value::I64(300);
    assert!(v == 300i64);
    assert!(v == 300i32);
    assert!(v == 300i16);
    assert!(v != 44i8);
    assert!(v == 300i128);
    assert!(v == 300u64);
    assert!(v == 300u32);
    assert!(v == 300u16);
    assert!(v != 44u8);
    assert!(v == 300u128);
    let n = Value::I64(-1);
    assert!(n == -1i8);
    assert!(n != u64::MAX);
    assert!(Value::Bool(true) == true);
    assert!(Value::Bool(true) != false);
    assert!(Value::Null == ());
    assert!(Value::I64(0) != ());
}

#[test]
fn nested_changes_through_mutable_lookups() {
    let mut o = Value::object();
    o.insert("key".to_string(), Value::array()).unwrap();
    o.get_mut("key").unwrap().push(Value::object()).unwrap();
    o.get_mut("key").unwrap().get_idx_mut(0).unwrap().insert("other".to_string(), Value::from(1u8)).unwrap();
    let inner = o.get("key").unwrap().get_idx(0).unwrap();
    assert_eq!(inner.get("other"), Some(&Value::I64(1)));
    assert!(o.get_mut("missing").is_none());
    assert!(o.get_idx_mut(0).is_none());
    let mut a = Value::array();
    assert!(a.get_idx_mut(0).is_none());
    assert!(a.get_mut("k").is_none());
}
