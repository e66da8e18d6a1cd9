use vstd::prelude::*;

use crate::tag::PyKind;
use crate::token::Scalar;

verus! {

/// What a dtype object is, as far as the conversions look at it.
#[derive(Clone, Copy, Debug, PartialEq, Eq, Structural)]
pub enum DtypeKind {
    /// The object is one of the known Python types itself.
    Class(PyKind),
    /// The object is an instance of one of the known Python types.
    Instance(PyKind),
    /// Any other object.
    Other,
}

/// A dtype as given by the user: what it is, and its printed form for messages.
#[derive(Clone, Debug, PartialEq, Eq)]
pub struct Dtype {
    pub kind: DtypeKind,
    pub repr: String,
}

/// A Python number read as a double, cast to each fixed-width type the way an
/// `as` cast from a double does it (saturating, NaN to zero); the floats are kept
/// by their bit patterns.
#[derive(Clone, Copy, Debug, PartialEq, Eq, Structural)]
pub struct F64Casts {
    pub as_u8: u8,
    pub as_u16: u16,
    pub as_u32: u32,
    pub as_u64: u64,
    pub as_i8: i8,
    pub as_i16: i16,
    pub as_i32: i32,
    pub as_i64: i64,
    pub as_f32_bits: u32,
    pub as_f64_bits: u64,
}

/// An enum value: the index of its variant and an optional payload.
#[derive(Debug, PartialEq, Eq)]
pub struct Enum {
    pub variant_index: u8,
    pub inner: Option<Box<PyValue>>,
}

/// An explicitly present optional value.
#[derive(Debug, PartialEq, Eq)]
pub struct SomeValue {
    pub inner: Box<PyValue>,
}

/// A homogeneous array with the dtype of its elements.
#[derive(Debug, PartialEq, Eq)]
pub struct Array {
    pub inner: Vec<PyValue>,
    pub dtype: Dtype,
}

/// A two-component vector of numbers with the dtype of its components.
#[derive(Clone, Debug, PartialEq, Eq)]
pub struct Vec2 {
    pub x: F64Casts,
    pub y: F64Casts,
    pub dtype: Dtype,
}

/// A three-component vector of numbers with the dtype of its components.
#[derive(Clone, Debug, PartialEq, Eq)]
pub struct Vec3 {
    pub x: F64Casts,
    pub y: F64Casts,
    pub z: F64Casts,
    pub dtype: Dtype,
}

/// A four-component vector of numbers with the dtype of its components.
#[derive(Clone, Debug, PartialEq, Eq)]
pub struct Vec4 {
    pub x: F64Casts,
    pub y: F64Casts,
    pub z: F64Casts,
    pub w: F64Casts,
    pub dtype: Dtype,
}

/// A Python value as the encoder sees it, by the first of these that it matches.
#[derive(Debug, PartialEq, Eq)]
pub enum PyValue {
    /// A dict, with its entries in iteration order and its keys read as strings.
    Dict(Vec<(String, PyValue)>),
    NoneObj,
    SomeObj(SomeValue),
    Bool(bool),
    Str(String),
    Bytes(Vec<u8>),
    /// A plain list, which the format does not take.
    List,
    Array(Array),
    /// A Python int (read as an `i64`), by its casts from a double.
    Int(F64Casts),
    /// A Python float, by its casts.
    Float(F64Casts),
    /// One of the fixed-width wrapper objects.
    Scalar(Scalar),
    Enum(Enum),
    Vec2(Vec2),
    Vec3(Vec3),
    Vec4(Vec4),
    /// Anything else.
    Unsupported,
    /// A value that could not be read (a key that is not a string, an int too
    /// large for an `i64`, ...), by the number its reader gave the failure.
    Unreadable(u64),
}

impl Enum {
    pub fn new(variant_index: u8, value: Option<PyValue>) -> (r: Self)
        ensures
            r.variant_index == variant_index,
            match value {
                Some(v) => r.inner matches Some(b) && *b == v,
                None => r.inner is None,
            },
    {
        let inner = match value {
            Some(v) => Some(Box::new(v)),
            None => None,
        };
        Enum { variant_index, inner }
    }
}

impl SomeValue {
    pub fn new(value: PyValue) -> (r: Self)
        ensures
            *r.inner == value,
    {
        SomeValue { inner: Box::new(value) }
    }
}

impl Array {
    pub fn new(values: Vec<PyValue>, dtype: Dtype) -> (r: Self)
        ensures
            r.inner == values,
            r.dtype == dtype,
    {
        Array { inner: values, dtype }
    }
}

} // verus!
