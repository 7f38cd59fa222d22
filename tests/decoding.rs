use json_dom::borrowed::BorrowedValue;
use json_dom::decode::{to_borrowed_value, to_owned_value, Deserializer, Lexeme, Token};
use json_dom::error::{Error, ErrorType};
use json_dom::value::{Number, Value};

fn bare(offset: usize, byte: u8) -> Token {
    Token { offset, byte, lexeme: Lexeme::Bare }
}

fn open(offset: usize, byte: u8, n: usize) -> Token {
    Token { offset, byte, lexeme: Lexeme::Count(n) }
}

fn text(offset: usize, s: &str) -> Token {
    Token { offset, byte: b'"', lexeme: Lexeme::Text(Ok(s.to_string())) }
}

fn num(offset: usize, first: u8, i: i64) -> Token {
    Token {
        offset,
        byte: first,
        lexeme: Lexeme::Num { root: Ok(Number::I64(i)), nested: Ok(Number::I64(i)) },
    }
}

#[test]
fn empty_array_decodes_to_empty_array() {
    let toks = vec![open(0, b'[', 0), bare(1, b']')];
    let v = to_owned_value(&toks, 2).unwrap();
    assert_eq!(v.as_array().unwrap().len(), 0);
}

#[test]
fn empty_object_decodes_to_empty_object() {
    let toks = vec![open(0, b'{', 0), bare(1, b'}')];
    let v = to_owned_value(&toks, 2).unwrap();
    assert_eq!(v.as_object().unwrap().len(), 0);
}

#[test]
fn duplicate_keys_keep_last_value() {
    // {"a":1,"a":2}
    let toks = vec![
        open(0, b'{', 2),
        text(1, "a"),
        bare(4, b':'),
        num(5, b'1', 1),
        bare(6, b','),
        text(7, "a"),
        bare(10, b':'),
        num(11, b'2', 2),
        bare(12, b'}'),
    ];
    let v = to_owned_value(&toks, 13).unwrap();
    assert_eq!(v.as_object().unwrap().len(), 1);
    assert_eq!(v.get("a"), Some(&Value::I64(2)));
}

#[test]
fn nested_document_decodes() {
    // {"k":[true,null,"s",-3],"f":false}
    let toks = vec![
        open(0, b'{', 2),
        text(1, "k"),
        bare(4, b':'),
        open(5, b'[', 4),
        bare(6, b't'),
        bare(10, b','),
        bare(11, b'n'),
        bare(15, b','),
        text(16, "s"),
        bare(19, b','),
        num(20, b'-', -3),
        bare(22, b']'),
        bare(23, b','),
        text(24, "f"),
        bare(27, b':'),
        bare(28, b'f'),
        bare(33, b'}'),
    ];
    let v = to_owned_value(&toks, 34).unwrap();
    assert_eq!(v.as_object().unwrap().len(), 2);
    assert_eq!(v.get("f"), Some(&Value::Bool(false)));
    let k = v.get("k").unwrap();
    assert_eq!(k.get_idx(0), Some(&Value::Bool(true)));
    assert_eq!(k.get_idx(1), Some(&Value::Null));
    assert_eq!(k.get_idx(2).unwrap().as_str(), Some("s"));
    assert_eq!(k.get_idx(3), Some(&Value::I64(-3)));
    assert_eq!(k.get_idx(4), None);
}

#[test]
fn unexpected_byte_at_root_reports_its_offset() {
    let toks = vec![bare(3, b'x')];
    assert_eq!(
        to_owned_value(&toks, 4),
        Err(Error { index: 3, character: b'x', error: ErrorType::UnexpectedCharacter })
    );
}

#[test]
fn unexpected_byte_inside_array_reports_its_offset() {
    // [1,?]
    let toks = vec![open(0, b'[', 2), num(1, b'1', 1), bare(2, b','), bare(3, b'?'), bare(4, b']')];
    assert_eq!(
        to_owned_value(&toks, 5),
        Err(Error { index: 3, character: b'?', error: ErrorType::UnexpectedCharacter })
    );
}

#[test]
fn closing_bracket_at_value_position_is_unexpected() {
    let toks = vec![bare(7, b']')];
    assert_eq!(
        to_owned_value(&toks, 8),
        Err(Error { index: 7, character: b']', error: ErrorType::UnexpectedCharacter })
    );
}

#[test]
fn missing_tokens_fail_at_end_of_input() {
    let toks = vec![open(0, b'[', 1)];
    assert_eq!(
        to_owned_value(&toks, 1),
        Err(Error { index: 1, character: 0, error: ErrorType::UnexpectedCharacter })
    );
}

#[test]
fn root_and_nested_numbers_are_read_apart() {
    let t = Token {
        offset: 0,
        byte: b'7',
        lexeme: Lexeme::Num { root: Ok(Number::I64(7)), nested: Err(ErrorType::InvalidNumber) },
    };
    assert_eq!(to_owned_value(&vec![t], 1), Ok(Value::I64(7)));
    let t = Token {
        offset: 1,
        byte: b'7',
        lexeme: Lexeme::Num { root: Ok(Number::I64(7)), nested: Err(ErrorType::InvalidNumber) },
    };
    let toks = vec![open(0, b'[', 1), t, bare(2, b']')];
    assert_eq!(
        to_owned_value(&toks, 3),
        Err(Error { index: 1, character: b'7', error: ErrorType::InvalidNumber })
    );
}

#[test]
fn float_bits_pass_through() {
    let bits = 1.5f64.to_bits();
    let t = Token {
        offset: 0,
        byte: b'1',
        lexeme: Lexeme::Num { root: Ok(Number::F64(bits)), nested: Ok(Number::F64(bits)) },
    };
    assert_eq!(to_owned_value(&vec![t], 3), Ok(Value::F64(bits)));
}

#[test]
fn invalid_string_error_is_passed_through() {
    let t = Token { offset: 2, byte: b'"', lexeme: Lexeme::Text(Err(ErrorType::InvalidString)) };
    assert_eq!(
        to_owned_value(&vec![t], 5),
        Err(Error { index: 2, character: b'"', error: ErrorType::InvalidString })
    );
}

#[test]
fn cursor_skip_stops_at_end() {
    let toks = vec![bare(0, b'n')];
    let mut d = Deserializer::new(&toks, 1);
    d.skip();
    d.skip();
    assert_eq!(d.pos, 1);
}

fn nested_tokens() -> Vec<Token> {
    // {"k":[1,"s"],"k2":{}}
    vec![
        open(0, b'{', 2),
        text(1, "k"),
        bare(4, b':'),
        open(5, b'[', 2),
        num(6, b'1', 1),
        bare(7, b','),
        text(8, "s"),
        bare(11, b']'),
        bare(12, b','),
        text(13, "k2"),
        bare(17, b':'),
        open(18, b'{', 0),
        bare(19, b'}'),
        bare(20, b'}'),
    ]
}

#[test]
fn owned_and_borrowed_decode_alike() {
    let toks = nested_tokens();
    let owned = to_owned_value(&toks, 21).unwrap();
    let borrowed = to_borrowed_value(&toks, 21).unwrap();
    assert_eq!(borrowed.len(), Some(2));
    assert_eq!(owned.as_object().unwrap().len(), 2);
    let ok = owned.get("k").unwrap();
    let bk = borrowed.get("k").unwrap();
    assert_eq!(bk.len(), Some(2));
    assert_eq!(ok.as_array().unwrap().len(), 2);
    assert_eq!(ok.get_idx(0).unwrap().as_i64(), bk.get_idx(0).unwrap().as_i64());
    assert_eq!(ok.get_idx(1).unwrap().as_str(), bk.get_idx(1).unwrap().as_str());
    assert_eq!(bk.get_idx(1), Some(&BorrowedValue::String("s")));
    assert_eq!(borrowed.get("k2").unwrap().len(), Some(0));
    assert_eq!(owned.get("k2").unwrap().as_object().unwrap().len(), 0);
}

#[test]
fn owned_and_borrowed_fail_alike() {
    let toks = vec![open(0, b'[', 1), bare(1, b'}')];
    let e = Err(Error { index: 1, character: b'}', error: ErrorType::UnexpectedCharacter });
    assert_eq!(to_owned_value(&toks, 2), e);
    assert_eq!(to_borrowed_value(&toks, 2).map(|_| ()), e.map(|_: Value| ()));
}

#[test]
fn borrowed_scalars() {
    let toks = vec![bare(0, b't')];
    assert_eq!(to_borrowed_value(&toks, 4), Ok(BorrowedValue::Bool(true)));
    let toks = vec![num(0, b'-', -9)];
    assert_eq!(to_borrowed_value(&toks, 2).unwrap().as_i64(), Some(-9));
}
