use vstd::prelude::*;

verus! {

/// The kind of a token, one per variant of the wire format's token type.
#[derive(Clone, Copy, Debug, PartialEq, Eq, Structural)]
pub enum TokenTag {
    Bool,
    Str,
    Bytes,
    NoneVal,
    Array,
    Struct,
    U8,
    U16,
    U32,
    U64,
    I8,
    I16,
    I32,
    I64,
    F32,
    F64,
    Enum,
    SomeVal,
    TimestampMillis,
    TimestampMicros,
    MillisSinceBoot,
    MicrosSinceBoot,
    DurationMillis,
    DurationMicros,
    Vec2,
    Vec3,
    Vec4,
    EmptyArr,
}

/// A Python type that stands for a token kind when it is used as the dtype of an
/// array or a vector: the builtins `bool`, `str`, `bytes`, `NoneType`, `list` and
/// `dict`, and the wrapper classes of this module.
#[derive(Clone, Copy, Debug, PartialEq, Eq, Structural)]
pub enum PyKind {
    Bool,
    Str,
    Bytes,
    NoneType,
    List,
    Dict,
    U8,
    U16,
    U32,
    U64,
    I8,
    I16,
    I32,
    I64,
    F32,
    F64,
    Enum,
    SomeValue,
    TimestampMillis,
    TimestampMicros,
    MillisSinceBoot,
    MicrosSinceBoot,
    DurationMillis,
    DurationMicros,
    Vec2,
    Vec3,
    Vec4,
}

/// The Python type that a token kind is shown as; an empty array has none.
pub open spec fn kind_of_tag(t: TokenTag) -> Option<PyKind> {
    match t {
        TokenTag::Bool => Some(PyKind::Bool),
        TokenTag::Str => Some(PyKind::Str),
        TokenTag::Bytes => Some(PyKind::Bytes),
        TokenTag::NoneVal => Some(PyKind::NoneType),
        TokenTag::Array => Some(PyKind::List),
        TokenTag::Struct => Some(PyKind::Dict),
        TokenTag::U8 => Some(PyKind::U8),
        TokenTag::U16 => Some(PyKind::U16),
        TokenTag::U32 => Some(PyKind::U32),
        TokenTag::U64 => Some(PyKind::U64),
        TokenTag::I8 => Some(PyKind::I8),
        TokenTag::I16 => Some(PyKind::I16),
        TokenTag::I32 => Some(PyKind::I32),
        TokenTag::I64 => Some(PyKind::I64),
        TokenTag::F32 => Some(PyKind::F32),
        TokenTag::F64 => Some(PyKind::F64),
        TokenTag::Enum => Some(PyKind::Enum),
        TokenTag::SomeVal => Some(PyKind::SomeValue),
        TokenTag::TimestampMillis => Some(PyKind::TimestampMillis),
        TokenTag::TimestampMicros => Some(PyKind::TimestampMicros),
        TokenTag::MillisSinceBoot => Some(PyKind::MillisSinceBoot),
        TokenTag::MicrosSinceBoot => Some(PyKind::MicrosSinceBoot),
        TokenTag::DurationMillis => Some(PyKind::DurationMillis),
        TokenTag::DurationMicros => Some(PyKind::DurationMicros),
        TokenTag::Vec2 => Some(PyKind::Vec2),
        TokenTag::Vec3 => Some(PyKind::Vec3),
        TokenTag::Vec4 => Some(PyKind::Vec4),
        TokenTag::EmptyArr => None,
    }
}

/// The token kind that a Python type stands for as a dtype.
pub open spec fn tag_of_kind(k: PyKind) -> TokenTag {
    match k {
        PyKind::Bool => TokenTag::Bool,
        PyKind::Str => TokenTag::Str,
        PyKind::Bytes => TokenTag::Bytes,
        PyKind::NoneType => TokenTag::NoneVal,
        PyKind::List => TokenTag::Array,
        PyKind::Dict => TokenTag::Struct,
        PyKind::U8 => TokenTag::U8,
        PyKind::U16 => TokenTag::U16,
        PyKind::U32 => TokenTag::U32,
        PyKind::U64 => TokenTag::U64,
        PyKind::I8 => TokenTag::I8,
        PyKind::I16 => TokenTag::I16,
        PyKind::I32 => TokenTag::I32,
        PyKind::I64 => TokenTag::I64,
        PyKind::F32 => TokenTag::F32,
        PyKind::F64 => TokenTag::F64,
        PyKind::Enum => TokenTag::Enum,
        PyKind::SomeValue => TokenTag::SomeVal,
        PyKind::TimestampMillis => TokenTag::TimestampMillis,
        PyKind::TimestampMicros => TokenTag::TimestampMicros,
        PyKind::MillisSinceBoot => TokenTag::MillisSinceBoot,
        PyKind::MicrosSinceBoot => TokenTag::MicrosSinceBoot,
        PyKind::DurationMillis => TokenTag::DurationMillis,
        PyKind::DurationMicros => TokenTag::DurationMicros,
        PyKind::Vec2 => TokenTag::Vec2,
        PyKind::Vec3 => TokenTag::Vec3,
        PyKind::Vec4 => TokenTag::Vec4,
    }
}

} // verus!
