use emblize_py::decode::{name_key, token_tag_to_dtype, token_to_f64, token_to_py, PyOut, ToPyError};
use emblize_py::encode::{kind_to_token_tag, py_to_token};
use emblize_py::tag::{PyKind, TokenTag};
use emblize_py::token::{Scalar, Token};
use emblize_py::types::{Array, Dtype, DtypeKind, Enum, F64Casts, PyValue, SomeValue, Vec2};

fn casts(x: f64) -> F64Casts {
    F64Casts {
        as_u8: x as u8,
        as_u16: x as u16,
        as_u32: x as u32,
        as_u64: x as u64,
        as_i8: x as i8,
        as_i16: x as i16,
        as_i32: x as i32,
        as_i64: x as i64,
        as_f32_bits: (x as f32).to_bits(),
        as_f64_bits: x.to_bits(),
    }
}

fn class(k: PyKind) -> Dtype {
    Dtype { kind: DtypeKind::Class(k), repr: format!("{:?}", k) }
}

const ALL_KINDS: [PyKind; 27] = [
    PyKind::Bool, PyKind::Str, PyKind::Bytes, PyKind::NoneType, PyKind::List, PyKind::Dict,
    PyKind::U8, PyKind::U16, PyKind::U32, PyKind::U64, PyKind::I8, PyKind::I16, PyKind::I32,
    PyKind::I64, PyKind::F32, PyKind::F64, PyKind::Enum, PyKind::SomeValue,
    PyKind::TimestampMillis, PyKind::TimestampMicros, PyKind::MillisSinceBoot,
    PyKind::MicrosSinceBoot, PyKind::DurationMillis, PyKind::DurationMicros, PyKind::Vec2,
    PyKind::Vec3, PyKind::Vec4,
];

#[test]
fn dtype_round_trip_for_every_kind() {
    for k in ALL_KINDS {
        assert_eq!(token_tag_to_dtype(kind_to_token_tag(k)), Ok(k));
    }
}

#[test]
fn empty_array_kind_has_no_dtype() {
    assert_eq!(token_tag_to_dtype(TokenTag::EmptyArr), Err(ToPyError::InvalidDtype));
    let t = Token::Array(None, TokenTag::EmptyArr, vec![]);
    assert_eq!(token_to_py(&t), Err(ToPyError::InvalidDtype));
}

#[test]
fn struct_becomes_dict_keyed_by_names() {
    let t = Token::Struct(
        None,
        vec![
            Token::Scalar(Some("a".to_string()), Scalar::U32(7)),
            Token::Bool(None, false),
        ],
    );
    assert_eq!(
        token_to_py(&t).unwrap(),
        PyOut::Dict(vec![
            ("a".to_string(), PyOut::Wrapper(Scalar::U32(7))),
            ("".to_string(), PyOut::Bool(false)),
        ])
    );
}

#[test]
fn optional_shows_as_its_content() {
    let t = Token::SomeVal(None, Box::new(Token::Str(None, "x".to_string())));
    assert_eq!(token_to_py(&t).unwrap(), PyOut::Str("x".to_string()));
    assert_eq!(token_to_py(&Token::NoneVal(None)).unwrap(), PyOut::NoneObj);
    assert_eq!(token_to_py(&Token::EmptyArr(None)).unwrap(), PyOut::EmptyArray);
}

#[test]
fn time_values_show_as_plain_ints() {
    let t = Token::Scalar(None, Scalar::MicrosSinceBoot(99));
    assert_eq!(token_to_py(&t).unwrap(), PyOut::Raw(Scalar::MicrosSinceBoot(99)));
    let n = Token::Scalar(None, Scalar::I8(-3));
    assert_eq!(token_to_py(&n).unwrap(), PyOut::Wrapper(Scalar::I8(-3)));
}

#[test]
fn array_elements_are_plain() {
    let t = Token::Array(
        None,
        TokenTag::U16,
        vec![Token::Scalar(None, Scalar::U16(1)), Token::Scalar(None, Scalar::U16(2))],
    );
    assert_eq!(
        token_to_py(&t).unwrap(),
        PyOut::Array(vec![PyOut::Raw(Scalar::U16(1)), PyOut::Raw(Scalar::U16(2))], PyKind::U16)
    );
    let nested = Token::Array(
        None,
        TokenTag::Enum,
        vec![Token::Enum(None, 2, None), Token::Enum(None, 1, Some(Box::new(Token::Bool(None, true))))],
    );
    assert_eq!(
        token_to_py(&nested).unwrap(),
        PyOut::Array(
            vec![PyOut::Enum(2, None), PyOut::Enum(1, Some(Box::new(PyOut::Bool(true))))],
            PyKind::Enum
        )
    );
}

#[test]
fn vector_components_must_be_numbers() {
    let ok = Token::Vec3(
        None,
        Box::new(Token::Scalar(None, Scalar::F32(1))),
        Box::new(Token::Scalar(None, Scalar::F32(2))),
        Box::new(Token::Scalar(None, Scalar::F32(3))),
    );
    assert_eq!(
        token_to_py(&ok).unwrap(),
        PyOut::Vec3(Scalar::F32(1), Scalar::F32(2), Scalar::F32(3), PyKind::F32)
    );
    let bad = Token::Vec2(
        None,
        Box::new(Token::Scalar(None, Scalar::U8(1))),
        Box::new(Token::Bool(None, true)),
    );
    assert_eq!(token_to_py(&bad), Err(ToPyError::UnsupportedType));
    assert_eq!(token_to_f64(&Token::Scalar(None, Scalar::TimestampMillis(1))), Err(ToPyError::UnsupportedType));
    assert_eq!(token_to_f64(&Token::Scalar(None, Scalar::F64(5))), Ok(Scalar::F64(5)));
}

#[test]
fn name_key_of_unnamed_is_empty() {
    assert_eq!(name_key(&Token::NoneVal(None)), "");
    assert_eq!(name_key(&Token::Bytes(Some("b".to_string()), vec![])), "b");
}

#[test]
fn decode_of_encode_gives_back_the_value() {
    let v = PyValue::Dict(vec![
        ("opt".to_string(), PyValue::SomeObj(SomeValue::new(PyValue::Scalar(Scalar::U64(9))))),
        ("t".to_string(), PyValue::Scalar(Scalar::TimestampMicros(12))),
        (
            "arr".to_string(),
            PyValue::Array(Array::new(vec![PyValue::Int(casts(4.0)), PyValue::Bool(true)], class(PyKind::Bool))),
        ),
        ("e".to_string(), PyValue::Enum(Enum::new(1, None))),
    ]);
    // An array of bools with a bare int in it: the int takes no bool width.
    assert!(py_to_token(&v, None, None).is_err());

    let v = PyValue::Dict(vec![
        ("opt".to_string(), PyValue::SomeObj(SomeValue::new(PyValue::Scalar(Scalar::U64(9))))),
        ("t".to_string(), PyValue::Scalar(Scalar::TimestampMicros(12))),
        (
            "arr".to_string(),
            PyValue::Array(Array::new(vec![PyValue::Int(casts(4.0)), PyValue::Scalar(Scalar::I32(5))], class(PyKind::I32))),
        ),
        ("e".to_string(), PyValue::Enum(Enum::new(1, None))),
    ]);
    let t = py_to_token(&v, None, None).unwrap();
    assert_eq!(
        token_to_py(&t).unwrap(),
        PyOut::Dict(vec![
            ("opt".to_string(), PyOut::Wrapper(Scalar::U64(9))),
            ("t".to_string(), PyOut::Raw(Scalar::TimestampMicros(12))),
            ("arr".to_string(), PyOut::Array(vec![PyOut::Raw(Scalar::I32(4)), PyOut::Raw(Scalar::I32(5))], PyKind::I32)),
            ("e".to_string(), PyOut::Enum(1, None)),
        ])
    );
}

#[test]
fn vector_with_time_dtype_encodes_but_does_not_decode() {
    let v = PyValue::Vec2(Vec2 { x: casts(1.0), y: casts(2.0), dtype: class(PyKind::TimestampMillis) });
    let t = py_to_token(&v, None, None).unwrap();
    assert_eq!(token_to_py(&t), Err(ToPyError::UnsupportedType));
}

#[test]
fn encoded_arrays_are_homogeneous() {
    let a = PyValue::Array(Array::new(
        vec![PyValue::Dict(vec![]), PyValue::Dict(vec![("k".to_string(), PyValue::NoneObj)])],
        class(PyKind::Dict),
    ));
    match py_to_token(&a, None, None).unwrap() {
        Token::Array(_, tag, items) => {
            assert_eq!(tag, TokenTag::Struct);
            assert!(items.iter().all(|t| t.tag() == tag));
        }
        other => panic!("unexpected {:?}", other),
    }
}
