use emblize_py::encode::{f64_to_token, kind_to_token_tag, py_to_token, type_to_token_tag, EncodeError};
use emblize_py::tag::{PyKind, TokenTag};
use emblize_py::token::{Scalar, Token};
use emblize_py::types::{Array, Dtype, DtypeKind, Enum, F64Casts, PyValue, SomeValue, Vec2};

fn casts(x: f64) -> F64Casts {
    F64Casts {
        as_u8: x as u8,
        as_u16: x as u16,
        as_u32: x as u32,
        as_u64: x as u64,
        as_i8: x as i8,
        as_i16: x as i16,
        as_i32: x as i32,
        as_i64: x as i64,
        as_f32_bits: (x as f32).to_bits(),
        as_f64_bits: x.to_bits(),
    }
}

fn class(k: PyKind) -> Dtype {
    Dtype { kind: DtypeKind::Class(k), repr: format!("<class {:?}>", k) }
}

fn named(s: &str) -> Option<String> {
    Some(s.to_string())
}

#[test]
fn dict_becomes_struct_named_by_keys() {
    let v = PyValue::Dict(vec![
        ("flag".to_string(), PyValue::Bool(true)),
        ("count".to_string(), PyValue::Scalar(Scalar::U8(5))),
        ("label".to_string(), PyValue::Str("hi".to_string())),
    ]);
    let t = py_to_token(&v, None, None).unwrap();
    assert_eq!(
        t,
        Token::Struct(
            None,
            vec![
                Token::Bool(named("flag"), true),
                Token::Scalar(named("count"), Scalar::U8(5)),
                Token::Str(named("label"), "hi".to_string()),
            ]
        )
    );
}

#[test]
fn top_level_name_is_kept() {
    let t = py_to_token(&PyValue::NoneObj, named("x"), None).unwrap();
    assert_eq!(t, Token::NoneVal(named("x")));
}

#[test]
fn bytes_and_some_and_enum() {
    let v = PyValue::SomeObj(SomeValue::new(PyValue::Bytes(vec![1, 2, 3])));
    assert_eq!(
        py_to_token(&v, None, None).unwrap(),
        Token::SomeVal(None, Box::new(Token::Bytes(None, vec![1, 2, 3])))
    );
    let e = PyValue::Enum(Enum::new(3, Some(PyValue::Scalar(Scalar::I16(-4)))));
    assert_eq!(
        py_to_token(&e, named("e"), None).unwrap(),
        Token::Enum(named("e"), 3, Some(Box::new(Token::Scalar(None, Scalar::I16(-4)))))
    );
    let unit = PyValue::Enum(Enum::new(0, None));
    assert_eq!(py_to_token(&unit, None, None).unwrap(), Token::Enum(None, 0, None));
}

#[test]
fn array_gives_bare_numbers_their_width() {
    let a = PyValue::Array(Array::new(
        vec![PyValue::Int(casts(5.0)), PyValue::Float(casts(300.7)), PyValue::Scalar(Scalar::U8(7))],
        class(PyKind::U8),
    ));
    assert_eq!(
        py_to_token(&a, None, None).unwrap(),
        Token::Array(
            None,
            TokenTag::U8,
            vec![
                Token::Scalar(None, Scalar::U8(5)),
                Token::Scalar(None, Scalar::U8(255)),
                Token::Scalar(None, Scalar::U8(7)),
            ]
        )
    );
}

#[test]
fn array_of_timestamps_and_floats() {
    let a = PyValue::Array(Array::new(vec![PyValue::Int(casts(1000.0))], class(PyKind::TimestampMillis)));
    assert_eq!(
        py_to_token(&a, None, None).unwrap(),
        Token::Array(None, TokenTag::TimestampMillis, vec![Token::Scalar(None, Scalar::TimestampMillis(1000))])
    );
    let f = PyValue::Array(Array::new(vec![PyValue::Float(casts(1.5))], class(PyKind::F64)));
    assert_eq!(
        py_to_token(&f, None, None).unwrap(),
        Token::Array(None, TokenTag::F64, vec![Token::Scalar(None, Scalar::F64(1.5f64.to_bits()))])
    );
}

#[test]
fn empty_array_keeps_its_kind() {
    let a = PyValue::Array(Array::new(vec![], class(PyKind::Dict)));
    assert_eq!(py_to_token(&a, named("k"), None).unwrap(), Token::Array(named("k"), TokenTag::Struct, vec![]));
}

#[test]
fn mixed_array_is_refused() {
    let a = PyValue::Array(Array::new(
        vec![PyValue::Scalar(Scalar::U8(1)), PyValue::Scalar(Scalar::U16(2))],
        class(PyKind::U8),
    ));
    assert_eq!(py_to_token(&a, None, None), Err(EncodeError::MixedArray));
}

#[test]
fn first_failing_element_decides() {
    let a = PyValue::Array(Array::new(
        vec![PyValue::Scalar(Scalar::U16(2)), PyValue::List],
        class(PyKind::U8),
    ));
    assert_eq!(py_to_token(&a, None, None), Err(EncodeError::MixedArray));
    let b = PyValue::Array(Array::new(
        vec![PyValue::List, PyValue::Scalar(Scalar::U16(2))],
        class(PyKind::U8),
    ));
    assert_eq!(py_to_token(&b, None, None), Err(EncodeError::ListNotSupported));
}

#[test]
fn array_dtype_must_be_a_known_class() {
    let inst = Dtype { kind: DtypeKind::Instance(PyKind::U8), repr: "U8(1)".to_string() };
    let a = PyValue::Array(Array::new(vec![], inst));
    assert_eq!(py_to_token(&a, None, None), Err(EncodeError::UnsupportedDtype("U8(1)".to_string())));
    let other = Dtype { kind: DtypeKind::Other, repr: "object".to_string() };
    let b = PyValue::Array(Array::new(vec![], other));
    assert_eq!(py_to_token(&b, None, None), Err(EncodeError::UnsupportedDtype("object".to_string())));
}

#[test]
fn numbers_need_a_number_dtype() {
    let a = PyValue::Array(Array::new(vec![PyValue::Int(casts(1.0))], class(PyKind::Str)));
    assert_eq!(
        py_to_token(&a, None, None),
        Err(EncodeError::UnsupportedNumberDtype("<class Str>".to_string()))
    );
}

#[test]
fn bare_numbers_are_refused() {
    assert_eq!(py_to_token(&PyValue::Int(casts(3.0)), None, None), Err(EncodeError::BareInt));
    assert_eq!(py_to_token(&PyValue::Float(casts(3.5)), None, None), Err(EncodeError::BareFloat));
    let d = PyValue::Dict(vec![("n".to_string(), PyValue::Int(casts(3.0)))]);
    assert_eq!(py_to_token(&d, None, None), Err(EncodeError::BareInt));
}

#[test]
fn lists_and_unknown_types_are_refused() {
    assert_eq!(py_to_token(&PyValue::List, None, None), Err(EncodeError::ListNotSupported));
    let d = PyValue::Dict(vec![("obj".to_string(), PyValue::Unsupported)]);
    assert_eq!(py_to_token(&d, None, None), Err(EncodeError::UnsupportedType(named("obj"))));
    assert_eq!(py_to_token(&PyValue::Unsupported, None, None), Err(EncodeError::UnsupportedType(None)));
}

#[test]
fn vectors_take_their_dtype() {
    let v = PyValue::Vec2(Vec2 { x: casts(1.0), y: casts(-2.0), dtype: class(PyKind::I32) });
    assert_eq!(
        py_to_token(&v, None, None).unwrap(),
        Token::Vec2(
            None,
            Box::new(Token::Scalar(None, Scalar::I32(1))),
            Box::new(Token::Scalar(None, Scalar::I32(-2)))
        )
    );
    let inst = Dtype { kind: DtypeKind::Instance(PyKind::F32), repr: "F32(0.0)".to_string() };
    let w = PyValue::Vec2(Vec2 { x: casts(0.5), y: casts(0.25), dtype: inst });
    assert_eq!(
        py_to_token(&w, None, None).unwrap(),
        Token::Vec2(
            None,
            Box::new(Token::Scalar(None, Scalar::F32(0.5f32.to_bits()))),
            Box::new(Token::Scalar(None, Scalar::F32(0.25f32.to_bits())))
        )
    );
}

#[test]
fn f64_to_token_by_dtype() {
    let c = casts(-1.0);
    assert_eq!(f64_to_token(&c, &class(PyKind::U16)), Ok(Scalar::U16(0)));
    assert_eq!(f64_to_token(&c, &class(PyKind::I64)), Ok(Scalar::I64(-1)));
    assert_eq!(f64_to_token(&c, &class(PyKind::DurationMicros)), Ok(Scalar::DurationMicros(-1)));
    assert_eq!(
        f64_to_token(&c, &class(PyKind::Bool)),
        Err(EncodeError::UnsupportedNumberDtype("<class Bool>".to_string()))
    );
    let other = Dtype { kind: DtypeKind::Other, repr: "x".to_string() };
    assert_eq!(f64_to_token(&c, &other), Err(EncodeError::UnsupportedNumberDtype("x".to_string())));
}

#[test]
fn dtype_classes_map_to_tags() {
    assert_eq!(type_to_token_tag(&class(PyKind::List)), Ok(TokenTag::Array));
    assert_eq!(type_to_token_tag(&class(PyKind::NoneType)), Ok(TokenTag::NoneVal));
    assert_eq!(type_to_token_tag(&class(PyKind::SomeValue)), Ok(TokenTag::SomeVal));
    assert_eq!(kind_to_token_tag(PyKind::Vec4), TokenTag::Vec4);
}

#[test]
fn unreadable_values_fail_in_order() {
    let d = PyValue::Dict(vec![
        ("a".to_string(), PyValue::Unsupported),
        ("b".to_string(), PyValue::Unreadable(0)),
    ]);
    assert_eq!(py_to_token(&d, None, None), Err(EncodeError::UnsupportedType(named("a"))));
    let e = PyValue::Dict(vec![
        ("a".to_string(), PyValue::Unreadable(3)),
        ("b".to_string(), PyValue::Unsupported),
    ]);
    assert_eq!(py_to_token(&e, None, None), Err(EncodeError::Unreadable(3)));
}

#[test]
fn number_under_a_dtype_is_unnamed() {
    let d = class(PyKind::U16);
    assert_eq!(
        py_to_token(&PyValue::Int(casts(7.0)), named("n"), Some(&d)).unwrap(),
        Token::Scalar(None, Scalar::U16(7))
    );
    assert_eq!(
        py_to_token(&PyValue::Float(casts(2.9)), named("f"), Some(&d)).unwrap(),
        Token::Scalar(None, Scalar::U16(2))
    );
}
