use json_dom::encode::{key_must_be_a_string, MapKeySerializer, Serializer};
use json_dom::error::{Error, ErrorType};
use json_dom::decode::{to_owned_value, Lexeme, Token};
use json_dom::value::{Number, Value};

fn ser() -> Serializer {
    Serializer::default()
}

#[test]
fn unit_variant_becomes_its_name() {
    let v = ser().serialize_unit_variant("E", 0, "Foo").unwrap();
    assert_eq!(v.as_str(), Some("Foo"));
}

#[test]
fn newtype_variant_becomes_single_entry_object() {
    let inner = ser().serialize_i32(5).unwrap();
    let v = ser().serialize_newtype_variant("E", 0, "Foo", inner).unwrap();
    assert_eq!(v.as_object().unwrap().len(), 1);
    assert_eq!(v.get("Foo"), Some(&Value::I64(5)));
}

#[test]
fn tuple_variant_becomes_object_of_array() {
    let mut tv = ser().serialize_tuple_variant("E", 0, "Foo", 2).unwrap();
    tv.serialize_field(ser().serialize_i64(1).unwrap()).unwrap();
    tv.serialize_field(ser().serialize_i64(2).unwrap()).unwrap();
    let v = tv.end().unwrap();
    assert_eq!(v.as_object().unwrap().len(), 1);
    let arr = v.get("Foo").unwrap().as_array().unwrap();
    assert_eq!(arr, &vec![Value::I64(1), Value::I64(2)]);
}

#[test]
fn struct_variant_becomes_object_of_object() {
    let mut sv = ser().serialize_struct_variant("E", 0, "Foo", 1).unwrap();
    sv.serialize_field("x", ser().serialize_u8(1).unwrap()).unwrap();
    let v = sv.end().unwrap();
    assert_eq!(v.as_object().unwrap().len(), 1);
    let inner = v.get("Foo").unwrap();
    assert_eq!(inner.as_object().unwrap().len(), 1);
    assert_eq!(inner.get("x"), Some(&Value::I64(1)));
}

#[test]
fn integer_key_is_rejected() {
    let err = MapKeySerializer {}.serialize_i32(1);
    assert_eq!(err, Err(key_must_be_a_string()));
    assert_eq!(
        key_must_be_a_string(),
        Error { index: 0, character: 0, error: ErrorType::KeyMustBeAString }
    );
}

#[test]
fn other_key_shapes_are_rejected() {
    let k = MapKeySerializer {};
    assert!(k.serialize_bool(true).is_err());
    assert!(k.serialize_u64(3).is_err());
    assert!(k.serialize_char('c').is_err());
    assert!(k.serialize_unit().is_err());
    assert!(k.serialize_none().is_err());
    assert!(k.serialize_seq(None).is_err());
    assert!(k.serialize_map(Some(1)).is_err());
}

#[test]
fn unit_variant_key_is_accepted() {
    let key = MapKeySerializer {}.serialize_unit_variant("K", 0, "Foo").unwrap();
    let mut m = ser().serialize_map(None).unwrap();
    m.serialize_key(key).unwrap();
    assert!(m.has_pending_key());
    m.serialize_value(ser().serialize_bool(true).unwrap()).unwrap();
    assert!(!m.has_pending_key());
    let v = m.end().unwrap();
    assert_eq!(v.get("Foo"), Some(&Value::Bool(true)));
}

#[test]
fn string_key_and_newtype_key() {
    let k = MapKeySerializer {};
    assert_eq!(k.serialize_str("a").unwrap(), "a");
    let inner = k.serialize_str("b");
    assert_eq!(k.serialize_newtype_struct("W", inner).unwrap(), "b");
}

#[test]
fn struct_fields_become_object() {
    let mut m = ser().serialize_struct("S", 2).unwrap();
    m.serialize_field("a", ser().serialize_i8(-1).unwrap()).unwrap();
    m.serialize_field("b", ser().serialize_unit().unwrap()).unwrap();
    let v = m.end().unwrap();
    assert_eq!(v.as_object().unwrap().len(), 2);
    assert_eq!(v.get("a"), Some(&Value::I64(-1)));
    assert_eq!(v.get("b"), Some(&Value::Null));
}

#[test]
fn sequence_is_built_in_order() {
    let mut s = ser().serialize_seq(Some(3)).unwrap();
    s.serialize_element(ser().serialize_str("x").unwrap()).unwrap();
    s.serialize_element(ser().serialize_none().unwrap()).unwrap();
    s.serialize_element(ser().serialize_u32(4).unwrap()).unwrap();
    let v = s.end().unwrap();
    let a = v.as_array().unwrap();
    assert_eq!(a.len(), 3);
    assert_eq!(a[0].as_str(), Some("x"));
    assert_eq!(a[1], Value::Null);
    assert_eq!(a[2], Value::I64(4));
}

#[test]
fn bytes_become_integer_array() {
    let v = ser().serialize_bytes(&[0u8, 7, 255]).unwrap();
    assert_eq!(v, Value::Array(vec![Value::I64(0), Value::I64(7), Value::I64(255)]));
}

#[test]
fn char_becomes_one_character_string() {
    let v = ser().serialize_char('ß').unwrap();
    assert_eq!(v.as_str(), Some("ß"));
}

#[test]
fn u64_max_does_not_survive() {
    let v = ser().serialize_u64(u64::MAX).unwrap();
    assert_eq!(v, Value::I64(-1));
    assert_eq!(v.as_u64(), None);
    assert_ne!(v.as_u64(), Some(u64::MAX));
}

#[test]
fn u64_below_two_to_the_63_survives() {
    let v = ser().serialize_u64(i64::MAX as u64).unwrap();
    assert_eq!(v.as_u64(), Some(i64::MAX as u64));
    let v = ser().serialize_u64(1u64 << 63).unwrap();
    assert_eq!(v, Value::I64(i64::MIN));
}

#[test]
fn unit_struct_newtype_and_some() {
    assert_eq!(ser().serialize_unit_struct("U"), Ok(Value::Null));
    assert_eq!(ser().serialize_newtype_struct("N", Value::I64(3)), Ok(Value::I64(3)));
    assert_eq!(ser().serialize_some(Value::Bool(false)), Ok(Value::Bool(false)));
    assert_eq!(ser().serialize_f64_bits(2.0f64.to_bits()), Ok(Value::F64(2.0f64.to_bits())));
    assert_eq!(ser().serialize_i16(-300), Ok(Value::I64(-300)));
    assert_eq!(ser().serialize_u16(300), Ok(Value::I64(300)));
}

#[test]
fn encoded_value_reads_back_from_its_tokens() {
    // {"Foo":[1,true]} as the encoder builds it, then as tokens of its text.
    let mut tv = ser().serialize_tuple_variant("E", 0, "Foo", 2).unwrap();
    tv.serialize_field(ser().serialize_i64(1).unwrap()).unwrap();
    tv.serialize_field(ser().serialize_bool(true).unwrap()).unwrap();
    let encoded = tv.end().unwrap();
    let toks = vec![
        Token { offset: 0, byte: b'{', lexeme: Lexeme::Count(1) },
        Token { offset: 1, byte: b'"', lexeme: Lexeme::Text(Ok("Foo".to_string())) },
        Token { offset: 6, byte: b':', lexeme: Lexeme::Bare },
        Token { offset: 7, byte: b'[', lexeme: Lexeme::Count(2) },
        Token {
            offset: 8,
            byte: b'1',
            lexeme: Lexeme::Num { root: Ok(Number::I64(1)), nested: Ok(Number::I64(1)) },
        },
        Token { offset: 9, byte: b',', lexeme: Lexeme::Bare },
        Token { offset: 10, byte: b't', lexeme: Lexeme::Bare },
        Token { offset: 14, byte: b']', lexeme: Lexeme::Bare },
        Token { offset: 15, byte: b'}', lexeme: Lexeme::Bare },
    ];
    let decoded = to_owned_value(&toks, 16).unwrap();
    assert_eq!(decoded, encoded);
}

#[test]
fn u64_max_read_back_differs() {
    let encoded = ser().serialize_u64(u64::MAX).unwrap();
    // The text of the stored value is -1.
    let toks = vec![Token {
        offset: 0,
        byte: b'-',
        lexeme: Lexeme::Num { root: Ok(Number::I64(-1)), nested: Ok(Number::I64(-1)) },
    }];
    let decoded = to_owned_value(&toks, 2).unwrap();
    assert_eq!(decoded, encoded);
    assert_ne!(decoded.as_u64(), Some(u64::MAX));
    assert_eq!(decoded.as_i64(), Some(-1));
}
