use vstd::prelude::*;

use crate::decode::{
    spec_token_tag_to_dtype, spec_token_to_f64, spec_token_to_py, SpecPyOut, ToPyError,
};
use crate::encode::{spec_f64_to_token, spec_py_to_token, spec_type_to_token_tag, SpecEncodeError};
use crate::laws::plain_number;
use crate::tag::{tag_of_kind, PyKind};
use crate::token::{Scalar, SpecToken};
use crate::types::{Dtype, DtypeKind, F64Casts, PyValue};

verus! {

/// The Python type of a value, where it is one of the types a dtype can name.
pub open spec fn py_kind_of(v: PyValue) -> Option<PyKind> {
    match v {
        PyValue::Dict(_) => Some(PyKind::Dict),
        PyValue::NoneObj => Some(PyKind::NoneType),
        PyValue::SomeObj(_) => Some(PyKind::SomeValue),
        PyValue::Bool(_) => Some(PyKind::Bool),
        PyValue::Str(_) => Some(PyKind::Str),
        PyValue::Bytes(_) => Some(PyKind::Bytes),
        PyValue::List => Some(PyKind::List),
        PyValue::Scalar(s) => Some(
            match s {
                Scalar::U8(_) => PyKind::U8,
                Scalar::U16(_) => PyKind::U16,
                Scalar::U32(_) => PyKind::U32,
                Scalar::U64(_) => PyKind::U64,
                Scalar::I8(_) => PyKind::I8,
                Scalar::I16(_) => PyKind::I16,
                Scalar::I32(_) => PyKind::I32,
                Scalar::I64(_) => PyKind::I64,
                Scalar::F32(_) => PyKind::F32,
                Scalar::F64(_) => PyKind::F64,
                Scalar::TimestampMillis(_) => PyKind::TimestampMillis,
                Scalar::TimestampMicros(_) => PyKind::TimestampMicros,
                Scalar::MillisSinceBoot(_) => PyKind::MillisSinceBoot,
                Scalar::MicrosSinceBoot(_) => PyKind::MicrosSinceBoot,
                Scalar::DurationMillis(_) => PyKind::DurationMillis,
                Scalar::DurationMicros(_) => PyKind::DurationMicros,
            },
        ),
        PyValue::Enum(_) => Some(PyKind::Enum),
        PyValue::Vec2(_) => Some(PyKind::Vec2),
        PyValue::Vec3(_) => Some(PyKind::Vec3),
        PyValue::Vec4(_) => Some(PyKind::Vec4),
        _ => None,
    }
}

/// A value of the dtype's own Python type, converted as an element of an array of
/// that dtype, gives a token of exactly the kind the dtype stands for: it always
/// passes the array's kind check.
pub proof fn law_element_of_own_type_has_array_kind(v: PyValue, d: Dtype, k: PyKind)
    requires
        py_kind_of(v) == Some(k),
        d.kind == DtypeKind::Class(k),
        spec_py_to_token(v, None, Some(d)) is Ok,
    ensures
        spec_type_to_token_tag(d) is Ok,
        spec_py_to_token(v, None, Some(d))->Ok_0.tag() == spec_type_to_token_tag(d)->Ok_0,
{
    match v {
        PyValue::Dict(_) => {},
        PyValue::Vec2(_) => {},
        PyValue::Vec3(_) => {},
        PyValue::Vec4(_) => {},
        _ => {},
    }
}

/// The token of a value of one of the dtype types is shown, as the dtype of an
/// array or vector, as that value's own Python type.
pub proof fn law_token_kind_is_value_type(v: PyValue, name: Option<Seq<char>>, k: PyKind)
    requires
        py_kind_of(v) == Some(k),
        spec_py_to_token(v, name, None) is Ok,
    ensures
        spec_token_tag_to_dtype(spec_py_to_token(v, name, None)->Ok_0.tag()) == Ok::<
            PyKind,
            ToPyError,
        >(k),
{
    match v {
        PyValue::Dict(_) => {},
        PyValue::Vec2(_) => {},
        PyValue::Vec3(_) => {},
        PyValue::Vec4(_) => {},
        _ => {},
    }
}

/// A vector component is taken exactly when it is a plain number, and then as it is.
pub proof fn law_vector_component(t: SpecToken)
    ensures
        spec_token_to_f64(t) == (match t {
            SpecToken::Scalar(_, s) => if plain_number(s) {
                Ok(s)
            } else {
                Err(ToPyError::UnsupportedType)
            },
            _ => Err(ToPyError::UnsupportedType),
        }),
{
}

/// The least and greatest value of an integer-valued kind.
pub open spec fn kind_range(k: PyKind) -> Option<(int, int)> {
    match k {
        PyKind::U8 => Some((0, 0xff)),
        PyKind::U16 => Some((0, 0xffff)),
        PyKind::U32 => Some((0, 0xffff_ffff)),
        PyKind::U64 => Some((0, 0xffff_ffff_ffff_ffff)),
        PyKind::I8 => Some((-0x80, 0x7f)),
        PyKind::I16 => Some((-0x8000, 0x7fff)),
        PyKind::I32 => Some((-0x8000_0000, 0x7fff_ffff)),
        PyKind::I64 => Some((-0x8000_0000_0000_0000, 0x7fff_ffff_ffff_ffff)),
        PyKind::TimestampMillis => Some((0, 0xffff_ffff_ffff_ffff)),
        PyKind::TimestampMicros => Some((0, 0xffff_ffff_ffff_ffff)),
        PyKind::MillisSinceBoot => Some((0, 0xffff_ffff_ffff_ffff)),
        PyKind::MicrosSinceBoot => Some((0, 0xffff_ffff_ffff_ffff)),
        PyKind::DurationMillis => Some((-0x8000_0000_0000_0000, 0x7fff_ffff_ffff_ffff)),
        PyKind::DurationMicros => Some((-0x8000_0000_0000_0000, 0x7fff_ffff_ffff_ffff)),
        _ => None,
    }
}

pub open spec fn clamp(n: int, lo: int, hi: int) -> int {
    if n < lo {
        lo
    } else if n > hi {
        hi
    } else {
        n
    }
}

/// `n` held in the width of an integer-valued kind: pinned to its bounds.
pub open spec fn saturate(n: int, k: PyKind) -> int {
    let (lo, hi) = kind_range(k)->Some_0;
    clamp(n, lo, hi)
}

/// The integer a fixed-width integer or time value holds.
pub open spec fn scalar_int(s: Scalar) -> Option<int> {
    match s {
        Scalar::U8(v) => Some(v as int),
        Scalar::U16(v) => Some(v as int),
        Scalar::U32(v) => Some(v as int),
        Scalar::U64(v) => Some(v as int),
        Scalar::I8(v) => Some(v as int),
        Scalar::I16(v) => Some(v as int),
        Scalar::I32(v) => Some(v as int),
        Scalar::I64(v) => Some(v as int),
        Scalar::TimestampMillis(v) => Some(v as int),
        Scalar::TimestampMicros(v) => Some(v as int),
        Scalar::MillisSinceBoot(v) => Some(v as int),
        Scalar::MicrosSinceBoot(v) => Some(v as int),
        Scalar::DurationMillis(v) => Some(v as int),
        Scalar::DurationMicros(v) => Some(v as int),
        _ => None,
    }
}

/// The integer casts of a double that holds the whole number `n`: each width
/// saturates at its own bounds, as an `as` cast from a double does.
pub open spec fn casts_of_whole(c: F64Casts, n: int) -> bool {
    &&& c.as_u8 as int == clamp(n, 0, 0xff)
    &&& c.as_u16 as int == clamp(n, 0, 0xffff)
    &&& c.as_u32 as int == clamp(n, 0, 0xffff_ffff)
    &&& c.as_u64 as int == clamp(n, 0, 0xffff_ffff_ffff_ffff)
    &&& c.as_i8 as int == clamp(n, -0x80, 0x7f)
    &&& c.as_i16 as int == clamp(n, -0x8000, 0x7fff)
    &&& c.as_i32 as int == clamp(n, -0x8000_0000, 0x7fff_ffff)
    &&& c.as_i64 as int == clamp(n, -0x8000_0000_0000_0000, 0x7fff_ffff_ffff_ffff)
}

/// A whole number given its width by an integer or time dtype keeps its value,
/// saturated to the bounds of that dtype's own width, in a value of that kind.
pub proof fn law_number_takes_dtype_width(c: F64Casts, n: int, d: Dtype, k: PyKind)
    requires
        casts_of_whole(c, n),
        d.kind == DtypeKind::Class(k) || d.kind == DtypeKind::Instance(k),
        kind_range(k) is Some,
    ensures
        spec_f64_to_token(c, d) is Ok,
        spec_f64_to_token(c, d)->Ok_0.spec_tag() == tag_of_kind(k),
        scalar_int(spec_f64_to_token(c, d)->Ok_0) == Some(saturate(n, k)),
{
}

/// A double given a float dtype is kept at that width: the 32-bit or the 64-bit
/// pattern of the double.
pub proof fn law_number_takes_float_width(c: F64Casts, d: Dtype, k: PyKind)
    requires
        d.kind == DtypeKind::Class(k) || d.kind == DtypeKind::Instance(k),
        k == PyKind::F32 || k == PyKind::F64,
    ensures
        spec_f64_to_token(c, d) == Ok::<Scalar, SpecEncodeError>(
            if k == PyKind::F32 {
                Scalar::F32(c.as_f32_bits)
            } else {
                Scalar::F64(c.as_f64_bits)
            },
        ),
{
}

/// A number dtype is not a time dtype and is one of the plain number types.
pub open spec fn number_kind(k: PyKind) -> bool {
    k == PyKind::U8 || k == PyKind::U16 || k == PyKind::U32 || k == PyKind::U64 || k == PyKind::I8
        || k == PyKind::I16 || k == PyKind::I32 || k == PyKind::I64 || k == PyKind::F32 || k
        == PyKind::F64
}

pub open spec fn number_dtype(d: Dtype, k: PyKind) -> bool {
    &&& d.kind == DtypeKind::Class(k) || d.kind == DtypeKind::Instance(k)
    &&& number_kind(k)
}

/// A plain number dtype takes every number.
pub proof fn law_number_dtype_takes_any_number(c: F64Casts, d: Dtype, k: PyKind)
    requires
        number_dtype(d, k),
    ensures
        spec_f64_to_token(c, d) is Ok,
        plain_number(spec_f64_to_token(c, d)->Ok_0),
        spec_f64_to_token(c, d)->Ok_0.spec_tag() == tag_of_kind(k),
{
}

pub open spec fn unnamed(s: Scalar) -> Box<SpecToken> {
    Box::new(SpecToken::Scalar(None, s))
}

/// A vector whose components all take its dtype encodes, under its name, to the
/// vector of those components in order.
pub proof fn law_vec2_encodes(v: PyValue, name: Option<Seq<char>>, e: Option<Dtype>)
    requires
        v is Vec2,
        spec_f64_to_token(v->Vec2_0.x, v->Vec2_0.dtype) is Ok,
        spec_f64_to_token(v->Vec2_0.y, v->Vec2_0.dtype) is Ok,
    ensures
        spec_py_to_token(v, name, e) == Ok::<SpecToken, SpecEncodeError>(
            SpecToken::Vec2(
                name,
                unnamed(spec_f64_to_token(v->Vec2_0.x, v->Vec2_0.dtype)->Ok_0),
                unnamed(spec_f64_to_token(v->Vec2_0.y, v->Vec2_0.dtype)->Ok_0),
            ),
        ),
{
}

/// A vector whose components all take its dtype encodes, under its name, to the
/// vector of those components in order.
pub proof fn law_vec3_encodes(v: PyValue, name: Option<Seq<char>>, e: Option<Dtype>)
    requires
        v is Vec3,
        spec_f64_to_token(v->Vec3_0.x, v->Vec3_0.dtype) is Ok,
        spec_f64_to_token(v->Vec3_0.y, v->Vec3_0.dtype) is Ok,
        spec_f64_to_token(v->Vec3_0.z, v->Vec3_0.dtype) is Ok,
    ensures
        spec_py_to_token(v, name, e) == Ok::<SpecToken, SpecEncodeError>(
            SpecToken::Vec3(
                name,
                unnamed(spec_f64_to_token(v->Vec3_0.x, v->Vec3_0.dtype)->Ok_0),
                unnamed(spec_f64_to_token(v->Vec3_0.y, v->Vec3_0.dtype)->Ok_0),
                unnamed(spec_f64_to_token(v->Vec3_0.z, v->Vec3_0.dtype)->Ok_0),
            ),
        ),
{
}

/// A vector whose components all take its dtype encodes, under its name, to the
/// vector of those components in order.
pub proof fn law_vec4_encodes(v: PyValue, name: Option<Seq<char>>, e: Option<Dtype>)
    requires
        v is Vec4,
        spec_f64_to_token(v->Vec4_0.x, v->Vec4_0.dtype) is Ok,
        spec_f64_to_token(v->Vec4_0.y, v->Vec4_0.dtype) is Ok,
        spec_f64_to_token(v->Vec4_0.z, v->Vec4_0.dtype) is Ok,
        spec_f64_to_token(v->Vec4_0.w, v->Vec4_0.dtype) is Ok,
    ensures
        spec_py_to_token(v, name, e) == Ok::<SpecToken, SpecEncodeError>(
            SpecToken::Vec4(
                name,
                unnamed(spec_f64_to_token(v->Vec4_0.x, v->Vec4_0.dtype)->Ok_0),
                unnamed(spec_f64_to_token(v->Vec4_0.y, v->Vec4_0.dtype)->Ok_0),
                unnamed(spec_f64_to_token(v->Vec4_0.z, v->Vec4_0.dtype)->Ok_0),
                unnamed(spec_f64_to_token(v->Vec4_0.w, v->Vec4_0.dtype)->Ok_0),
            ),
        ),
{
}

/// A vector with a plain number dtype always encodes, and decodes to its
/// components at that width with that dtype.
pub proof fn law_number_vec2_round_trip(v: PyValue, name: Option<Seq<char>>, k: PyKind)
    requires
        v is Vec2,
        number_dtype(v->Vec2_0.dtype, k),
    ensures
        spec_py_to_token(v, name, None) is Ok,
        spec_token_to_py(spec_py_to_token(v, name, None)->Ok_0) == Ok::<SpecPyOut, ToPyError>(
            SpecPyOut::Vec2(
                spec_f64_to_token(v->Vec2_0.x, v->Vec2_0.dtype)->Ok_0,
                spec_f64_to_token(v->Vec2_0.y, v->Vec2_0.dtype)->Ok_0,
                k,
            ),
        ),
{
    let w = v->Vec2_0;
    law_number_dtype_takes_any_number(w.x, w.dtype, k);
    law_number_dtype_takes_any_number(w.y, w.dtype, k);
    law_vec2_encodes(v, name, None);
}

/// A vector with a plain number dtype always encodes, and decodes to its
/// components at that width with that dtype.
pub proof fn law_number_vec3_round_trip(v: PyValue, name: Option<Seq<char>>, k: PyKind)
    requires
        v is Vec3,
        number_dtype(v->Vec3_0.dtype, k),
    ensures
        spec_py_to_token(v, name, None) is Ok,
        spec_token_to_py(spec_py_to_token(v, name, None)->Ok_0) == Ok::<SpecPyOut, ToPyError>(
            SpecPyOut::Vec3(
                spec_f64_to_token(v->Vec3_0.x, v->Vec3_0.dtype)->Ok_0,
                spec_f64_to_token(v->Vec3_0.y, v->Vec3_0.dtype)->Ok_0,
                spec_f64_to_token(v->Vec3_0.z, v->Vec3_0.dtype)->Ok_0,
                k,
            ),
        ),
{
    let w = v->Vec3_0;
    law_number_dtype_takes_any_number(w.x, w.dtype, k);
    law_number_dtype_takes_any_number(w.y, w.dtype, k);
    law_number_dtype_takes_any_number(w.z, w.dtype, k);
    law_vec3_encodes(v, name, None);
}

/// A vector with a plain number dtype always encodes, and decodes to its
/// components at that width with that dtype.
pub proof fn law_number_vec4_round_trip(v: PyValue, name: Option<Seq<char>>, k: PyKind)
    requires
        v is Vec4,
        number_dtype(v->Vec4_0.dtype, k),
    ensures
        spec_py_to_token(v, name, None) is Ok,
        spec_token_to_py(spec_py_to_token(v, name, None)->Ok_0) == Ok::<SpecPyOut, ToPyError>(
            SpecPyOut::Vec4(
                spec_f64_to_token(v->Vec4_0.x, v->Vec4_0.dtype)->Ok_0,
                spec_f64_to_token(v->Vec4_0.y, v->Vec4_0.dtype)->Ok_0,
                spec_f64_to_token(v->Vec4_0.z, v->Vec4_0.dtype)->Ok_0,
                spec_f64_to_token(v->Vec4_0.w, v->Vec4_0.dtype)->Ok_0,
                k,
            ),
        ),
{
    let w = v->Vec4_0;
    law_number_dtype_takes_any_number(w.x, w.dtype, k);
    law_number_dtype_takes_any_number(w.y, w.dtype, k);
    law_number_dtype_takes_any_number(w.z, w.dtype, k);
    law_number_dtype_takes_any_number(w.w, w.dtype, k);
    law_vec4_encodes(v, name, None);
}

} // verus!
