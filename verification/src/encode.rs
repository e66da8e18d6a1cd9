use vstd::prelude::*;

use crate::tag::{tag_of_kind, PyKind, TokenTag};
use crate::token::{lemma_view_tokens_push, view_name, view_tokens, Name, Scalar, SpecToken, Token};
use crate::types::{Dtype, DtypeKind, F64Casts, PyValue};

verus! {

/// Why a Python value could not be turned into a token.
#[derive(Clone, Debug, PartialEq, Eq)]
pub enum EncodeError {
    /// The dtype of an array is not one of the Python types that stand for a
    /// token kind (carries the dtype's printed form).
    UnsupportedDtype(String),
    /// A number was asked to take a dtype that is not a number type.
    UnsupportedNumberDtype(String),
    /// A plain list was given where an `Array` is needed.
    ListNotSupported,
    /// An element of an array is not of the array's kind.
    MixedArray,
    /// A Python int stood where no dtype gives it a width.
    BareInt,
    /// A Python float stood where no dtype gives it a width.
    BareFloat,
    /// A value of no supported type, with the key it stood under, if any.
    UnsupportedType(Option<String>),
    /// A value that could not be read, by the number its reader gave the failure.
    Unreadable(u64),
}

pub enum SpecEncodeError {
    UnsupportedDtype(Seq<char>),
    UnsupportedNumberDtype(Seq<char>),
    ListNotSupported,
    MixedArray,
    BareInt,
    BareFloat,
    UnsupportedType(Option<Seq<char>>),
    Unreadable(u64),
}

impl View for EncodeError {
    type V = SpecEncodeError;

    open spec fn view(&self) -> SpecEncodeError {
        match self {
            EncodeError::UnsupportedDtype(s) => SpecEncodeError::UnsupportedDtype(s@),
            EncodeError::UnsupportedNumberDtype(s) => SpecEncodeError::UnsupportedNumberDtype(s@),
            EncodeError::ListNotSupported => SpecEncodeError::ListNotSupported,
            EncodeError::MixedArray => SpecEncodeError::MixedArray,
            EncodeError::BareInt => SpecEncodeError::BareInt,
            EncodeError::BareFloat => SpecEncodeError::BareFloat,
            EncodeError::UnsupportedType(n) => SpecEncodeError::UnsupportedType(view_name(*n)),
            EncodeError::Unreadable(i) => SpecEncodeError::Unreadable(*i),
        }
    }
}

pub open spec fn view_result<T: View>(r: Result<T, EncodeError>) -> Result<T::V, SpecEncodeError> {
    match r {
        Ok(t) => Ok(t@),
        Err(e) => Err(e@),
    }
}

/// The token kind that an array's dtype stands for: only the known Python types
/// themselves stand for one.
pub open spec fn spec_type_to_token_tag(dtype: Dtype) -> Result<TokenTag, SpecEncodeError> {
    match dtype.kind {
        DtypeKind::Class(k) => Ok(tag_of_kind(k)),
        _ => Err(SpecEncodeError::UnsupportedDtype(dtype.repr@)),
    }
}

/// The fixed-width value that a number takes under a number type.
pub open spec fn scalar_of_kind(c: F64Casts, k: PyKind) -> Option<Scalar> {
    match k {
        PyKind::U8 => Some(Scalar::U8(c.as_u8)),
        PyKind::U16 => Some(Scalar::U16(c.as_u16)),
        PyKind::U32 => Some(Scalar::U32(c.as_u32)),
        PyKind::U64 => Some(Scalar::U64(c.as_u64)),
        PyKind::I8 => Some(Scalar::I8(c.as_i8)),
        PyKind::I16 => Some(Scalar::I16(c.as_i16)),
        PyKind::I32 => Some(Scalar::I32(c.as_i32)),
        PyKind::I64 => Some(Scalar::I64(c.as_i64)),
        PyKind::F32 => Some(Scalar::F32(c.as_f32_bits)),
        PyKind::F64 => Some(Scalar::F64(c.as_f64_bits)),
        PyKind::TimestampMillis => Some(Scalar::TimestampMillis(c.as_u64)),
        PyKind::TimestampMicros => Some(Scalar::TimestampMicros(c.as_u64)),
        PyKind::MillisSinceBoot => Some(Scalar::MillisSinceBoot(c.as_u64)),
        PyKind::MicrosSinceBoot => Some(Scalar::MicrosSinceBoot(c.as_u64)),
        PyKind::DurationMillis => Some(Scalar::DurationMillis(c.as_i64)),
        PyKind::DurationMicros => Some(Scalar::DurationMicros(c.as_i64)),
        _ => None,
    }
}

/// The value a number takes under a dtype: the dtype may be a number type or an
/// instance of one.
pub open spec fn spec_f64_to_token(c: F64Casts, dtype: Dtype) -> Result<Scalar, SpecEncodeError> {
    let k = match dtype.kind {
        DtypeKind::Class(k) => Some(k),
        DtypeKind::Instance(k) => Some(k),
        DtypeKind::Other => None,
    };
    match k {
        Some(k) => match scalar_of_kind(c, k) {
            Some(s) => Ok(s),
            None => Err(SpecEncodeError::UnsupportedNumberDtype(dtype.repr@)),
        },
        None => Err(SpecEncodeError::UnsupportedNumberDtype(dtype.repr@)),
    }
}

/// A bare Python number: under a dtype it becomes an unnamed fixed-width token
/// (whatever name it was converted under); without one it is refused.
pub open spec fn spec_number(c: F64Casts, expected: Option<Dtype>, bare: SpecEncodeError) -> Result<
    SpecToken,
    SpecEncodeError,
> {
    match expected {
        Some(d) => match spec_f64_to_token(c, d) {
            Ok(s) => Ok(SpecToken::Scalar(None, s)),
            Err(e) => Err(e),
        },
        None => Err(bare),
    }
}

pub open spec fn spec_component(c: F64Casts, dtype: Dtype) -> Result<
    Box<SpecToken>,
    SpecEncodeError,
> {
    match spec_f64_to_token(c, dtype) {
        Ok(s) => Ok(Box::new(SpecToken::Scalar(None, s))),
        Err(e) => Err(e),
    }
}

/// The token of a Python value under a name. `expected` is the dtype of the array
/// that the value is a direct element of; it gives bare numbers their width.
pub open spec fn spec_py_to_token(
    v: PyValue,
    name: Option<Seq<char>>,
    expected: Option<Dtype>,
) -> Result<SpecToken, SpecEncodeError>
    decreases v,
{
    match v {
        PyValue::Dict(entries) => match spec_entries_to_tokens(entries@) {
            Ok(ts) => Ok(SpecToken::Struct(name, ts)),
            Err(e) => Err(e),
        },
        PyValue::NoneObj => Ok(SpecToken::NoneVal(name)),
        PyValue::SomeObj(s) => match spec_py_to_token(*s.inner, None, None) {
            Ok(t) => Ok(SpecToken::SomeVal(name, Box::new(t))),
            Err(e) => Err(e),
        },
        PyValue::Bool(b) => Ok(SpecToken::Bool(name, b)),
        PyValue::Str(s) => Ok(SpecToken::Str(name, s@)),
        PyValue::Bytes(b) => Ok(SpecToken::Bytes(name, b@)),
        PyValue::List => Err(SpecEncodeError::ListNotSupported),
        PyValue::Array(a) => match spec_type_to_token_tag(a.dtype) {
            Ok(tag) => match spec_items_to_tokens(a.inner@, a.dtype, tag) {
                Ok(ts) => Ok(SpecToken::Array(name, tag, ts)),
                Err(e) => Err(e),
            },
            Err(e) => Err(e),
        },
        PyValue::Int(c) => spec_number(c, expected, SpecEncodeError::BareInt),
        PyValue::Float(c) => spec_number(c, expected, SpecEncodeError::BareFloat),
        PyValue::Scalar(s) => Ok(SpecToken::Scalar(name, s)),
        PyValue::Enum(e) => match e.inner {
            Some(b) => match spec_py_to_token(*b, None, None) {
                Ok(t) => Ok(SpecToken::Enum(name, e.variant_index, Some(Box::new(t)))),
                Err(err) => Err(err),
            },
            None => Ok(SpecToken::Enum(name, e.variant_index, None)),
        },
        PyValue::Vec2(w) => match (spec_component(w.x, w.dtype), spec_component(w.y, w.dtype)) {
            (Err(e), _) => Err(e),
            (Ok(_), Err(e)) => Err(e),
            (Ok(x), Ok(y)) => Ok(SpecToken::Vec2(name, x, y)),
        },
        PyValue::Vec3(w) => match (
            spec_component(w.x, w.dtype),
            spec_component(w.y, w.dtype),
            spec_component(w.z, w.dtype),
        ) {
            (Err(e), _, _) => Err(e),
            (Ok(_), Err(e), _) => Err(e),
            (Ok(_), Ok(_), Err(e)) => Err(e),
            (Ok(x), Ok(y), Ok(z)) => Ok(SpecToken::Vec3(name, x, y, z)),
        },
        PyValue::Vec4(w) => match (
            spec_component(w.x, w.dtype),
            spec_component(w.y, w.dtype),
            spec_component(w.z, w.dtype),
            spec_component(w.w, w.dtype),
        ) {
            (Err(e), _, _, _) => Err(e),
            (Ok(_), Err(e), _, _) => Err(e),
            (Ok(_), Ok(_), Err(e), _) => Err(e),
            (Ok(_), Ok(_), Ok(_), Err(e)) => Err(e),
            (Ok(x), Ok(y), Ok(z), Ok(u)) => Ok(SpecToken::Vec4(name, x, y, z, u)),
        },
        PyValue::Unsupported => Err(SpecEncodeError::UnsupportedType(name)),
        PyValue::Unreadable(i) => Err(SpecEncodeError::Unreadable(i)),
    }
}

/// The fields of a struct from the entries of a dict, in order, each named by its
/// key; the first entry that fails decides the error.
pub open spec fn spec_entries_to_tokens(entries: Seq<(String, PyValue)>) -> Result<
    Seq<SpecToken>,
    SpecEncodeError,
>
    decreases entries,
{
    if entries.len() == 0 {
        Ok(Seq::empty())
    } else {
        match spec_entries_to_tokens(entries.subrange(0, entries.len() - 1)) {
            Ok(ts) => match spec_py_to_token(
                entries[entries.len() - 1].1,
                Some(entries[entries.len() - 1].0@),
                None,
            ) {
                Ok(t) => Ok(ts.push(t)),
                Err(e) => Err(e),
            },
            Err(e) => Err(e),
        }
    }
}

/// The elements of an array, in order, each converted under the array's dtype and
/// required to be of the array's kind; the first element that fails decides.
pub open spec fn spec_items_to_tokens(items: Seq<PyValue>, dtype: Dtype, tag: TokenTag) -> Result<
    Seq<SpecToken>,
    SpecEncodeError,
>
    decreases items,
{
    if items.len() == 0 {
        Ok(Seq::empty())
    } else {
        match spec_items_to_tokens(items.subrange(0, items.len() - 1), dtype, tag) {
            Ok(ts) => match spec_py_to_token(items[items.len() - 1], None, Some(dtype)) {
                Ok(t) => if t.tag() == tag {
                    Ok(ts.push(t))
                } else {
                    Err(SpecEncodeError::MixedArray)
                },
                Err(e) => Err(e),
            },
            Err(e) => Err(e),
        }
    }
}


/// An error that failed on a prefix of the entries decides the whole dict.
pub proof fn lemma_entries_prefix_err(s: Seq<(String, PyValue)>, k: int)
    requires
        0 <= k <= s.len(),
        spec_entries_to_tokens(s.subrange(0, k)) is Err,
    ensures
        spec_entries_to_tokens(s) == spec_entries_to_tokens(s.subrange(0, k)),
    decreases s.len() - k,
{
    if k == s.len() {
        assert(s.subrange(0, k) =~= s);
    } else {
        assert(s.subrange(0, k + 1).subrange(0, k) =~= s.subrange(0, k));
        lemma_entries_prefix_err(s, k + 1);
    }
}

/// An error that failed on a prefix of the elements decides the whole array.
pub proof fn lemma_items_prefix_err(s: Seq<PyValue>, k: int, dtype: Dtype, tag: TokenTag)
    requires
        0 <= k <= s.len(),
        spec_items_to_tokens(s.subrange(0, k), dtype, tag) is Err,
    ensures
        spec_items_to_tokens(s, dtype, tag) == spec_items_to_tokens(s.subrange(0, k), dtype, tag),
    decreases s.len() - k,
{
    if k == s.len() {
        assert(s.subrange(0, k) =~= s);
    } else {
        assert(s.subrange(0, k + 1).subrange(0, k) =~= s.subrange(0, k));
        lemma_items_prefix_err(s, k + 1, dtype, tag);
    }
}

pub open spec fn same_result<T>(r: Result<T, EncodeError>, s: Result<T, SpecEncodeError>) -> bool {
    match r {
        Ok(t) => s == Ok::<T, SpecEncodeError>(t),
        Err(e) => s == Err::<T, SpecEncodeError>(e@),
    }
}

pub open spec fn opt_dtype(d: Option<&Dtype>) -> Option<Dtype> {
    match d {
        Some(d) => Some(*d),
        None => None,
    }
}

/// The token kind that a Python type stands for.
pub fn kind_to_token_tag(k: PyKind) -> (t: TokenTag)
    ensures
        t == tag_of_kind(k),
{
    match k {
        PyKind::Bool => TokenTag::Bool,
        PyKind::Str => TokenTag::Str,
        PyKind::Bytes => TokenTag::Bytes,
        PyKind::NoneType => TokenTag::NoneVal,
        PyKind::List => TokenTag::Array,
        PyKind::Dict => TokenTag::Struct,
        PyKind::U8 => TokenTag::U8,
        PyKind::U16 => TokenTag::U16,
        PyKind::U32 => TokenTag::U32,
        PyKind::U64 => TokenTag::U64,
        PyKind::I8 => TokenTag::I8,
        PyKind::I16 => TokenTag::I16,
        PyKind::I32 => TokenTag::I32,
        PyKind::I64 => TokenTag::I64,
        PyKind::F32 => TokenTag::F32,
        PyKind::F64 => TokenTag::F64,
        PyKind::Enum => TokenTag::Enum,
        PyKind::SomeValue => TokenTag::SomeVal,
        PyKind::TimestampMillis => TokenTag::TimestampMillis,
        PyKind::TimestampMicros => TokenTag::TimestampMicros,
        PyKind::MillisSinceBoot => TokenTag::MillisSinceBoot,
        PyKind::MicrosSinceBoot => TokenTag::MicrosSinceBoot,
        PyKind::DurationMillis => TokenTag::DurationMillis,
        PyKind::DurationMicros => TokenTag::DurationMicros,
        PyKind::Vec2 => TokenTag::Vec2,
        PyKind::Vec3 => TokenTag::Vec3,
        PyKind::Vec4 => TokenTag::Vec4,
    }
}

/// The token kind that an array's dtype stands for.
pub fn type_to_token_tag(dtype: &Dtype) -> (r: Result<TokenTag, EncodeError>)
    ensures
        same_result(r, spec_type_to_token_tag(*dtype)),
{
    match dtype.kind {
        DtypeKind::Class(k) => Ok(kind_to_token_tag(k)),
        _ => Err(EncodeError::UnsupportedDtype(dtype.repr.clone())),
    }
}

/// The fixed-width value that a number takes under a dtype.
pub fn f64_to_token(value: &F64Casts, dtype: &Dtype) -> (r: Result<Scalar, EncodeError>)
    ensures
        same_result(r, spec_f64_to_token(*value, *dtype)),
{
    let k = match dtype.kind {
        DtypeKind::Class(k) => k,
        DtypeKind::Instance(k) => k,
        DtypeKind::Other => {
            return Err(EncodeError::UnsupportedNumberDtype(dtype.repr.clone()));
        },
    };
    match k {
        PyKind::U8 => Ok(Scalar::U8(value.as_u8)),
        PyKind::U16 => Ok(Scalar::U16(value.as_u16)),
        PyKind::U32 => Ok(Scalar::U32(value.as_u32)),
        PyKind::U64 => Ok(Scalar::U64(value.as_u64)),
        PyKind::I8 => Ok(Scalar::I8(value.as_i8)),
        PyKind::I16 => Ok(Scalar::I16(value.as_i16)),
        PyKind::I32 => Ok(Scalar::I32(value.as_i32)),
        PyKind::I64 => Ok(Scalar::I64(value.as_i64)),
        PyKind::F32 => Ok(Scalar::F32(value.as_f32_bits)),
        PyKind::F64 => Ok(Scalar::F64(value.as_f64_bits)),
        PyKind::TimestampMillis => Ok(Scalar::TimestampMillis(value.as_u64)),
        PyKind::TimestampMicros => Ok(Scalar::TimestampMicros(value.as_u64)),
        PyKind::MillisSinceBoot => Ok(Scalar::MillisSinceBoot(value.as_u64)),
        PyKind::MicrosSinceBoot => Ok(Scalar::MicrosSinceBoot(value.as_u64)),
        PyKind::DurationMillis => Ok(Scalar::DurationMillis(value.as_i64)),
        PyKind::DurationMicros => Ok(Scalar::DurationMicros(value.as_i64)),
        _ => Err(EncodeError::UnsupportedNumberDtype(dtype.repr.clone())),
    }
}

fn component(value: &F64Casts, dtype: &Dtype) -> (r: Result<Box<Token>, EncodeError>)
    ensures
        view_result(r) == (match spec_component(*value, *dtype) {
            Ok(b) => Ok(*b),
            Err(e) => Err(e),
        }),
{
    match f64_to_token(value, dtype) {
        Ok(s) => Ok(Box::new(Token::Scalar(None, s))),
        Err(e) => Err(e),
    }
}

fn number(value: &F64Casts, expected: Option<&Dtype>, is_int: bool) -> (r: Result<
    Token,
    EncodeError,
>)
    ensures
        view_result(r) == spec_number(
            *value,
            opt_dtype(expected),
            if is_int {
                SpecEncodeError::BareInt
            } else {
                SpecEncodeError::BareFloat
            },
        ),
{
    match expected {
        Some(d) => match f64_to_token(value, d) {
            Ok(s) => Ok(Token::Scalar(None, s)),
            Err(e) => Err(e),
        },
        None => if is_int {
            Err(EncodeError::BareInt)
        } else {
            Err(EncodeError::BareFloat)
        },
    }
}

fn copy_bytes(b: &Vec<u8>) -> (r: Vec<u8>)
    ensures
        r@ == b@,
{
    let r = b.clone();
    assert(r@ =~= b@);
    r
}

/// The token of a Python value under a name; `expected` is the dtype of the array
/// whose direct element the value is, if it is one.
#[verifier::loop_isolation(false)]
pub fn py_to_token(v: &PyValue, name: Name, expected: Option<&Dtype>) -> (r: Result<
    Token,
    EncodeError,
>)
    ensures
        view_result(r) == spec_py_to_token(*v, view_name(name), opt_dtype(expected)),
    decreases v,
{
    match v {
        PyValue::Dict(entries) => {
            let mut tokens: Vec<Token> = Vec::new();
            let mut i: usize = 0;
            assert(entries@.subrange(0, 0) =~= Seq::<(String, PyValue)>::empty());
            while i < entries.len()
                invariant
                    i <= entries.len(),
                    spec_entries_to_tokens(entries@.subrange(0, i as int)) == Ok::<
                        Seq<SpecToken>,
                        SpecEncodeError,
                    >(view_tokens(tokens@)),
                decreases entries.len() - i,
            {
                let entry = &entries[i];
                assert(entries@.subrange(0, i + 1).subrange(0, i as int) =~= entries@.subrange(
                    0,
                    i as int,
                ));
                assert(decreases_to!(*v => entries@[i as int].1));
                match py_to_token(&entry.1, Some(entry.0.clone()), None) {
                    Ok(t) => {
                        proof {
                            lemma_view_tokens_push(tokens@, t);
                        }
                        tokens.push(t);
                    },
                    Err(e) => {
                        proof {
                            lemma_entries_prefix_err(entries@, i + 1);
                        }
                        return Err(e);
                    },
                }
                i += 1;
            }
            assert(entries@.subrange(0, entries.len() as int) =~= entries@);
            Ok(Token::Struct(name, tokens))
        },
        PyValue::NoneObj => Ok(Token::NoneVal(name)),
        PyValue::SomeObj(s) => match py_to_token(&s.inner, None, None) {
            Ok(t) => Ok(Token::SomeVal(name, Box::new(t))),
            Err(e) => Err(e),
        },
        PyValue::Bool(b) => Ok(Token::Bool(name, *b)),
        PyValue::Str(s) => Ok(Token::Str(name, s.clone())),
        PyValue::Bytes(b) => Ok(Token::Bytes(name, copy_bytes(b))),
        PyValue::List => Err(EncodeError::ListNotSupported),
        PyValue::Array(a) => {
            let tag = match type_to_token_tag(&a.dtype) {
                Ok(t) => t,
                Err(e) => {
                    return Err(e);
                },
            };
            let mut tokens: Vec<Token> = Vec::new();
            let mut i: usize = 0;
            assert(a.inner@.subrange(0, 0) =~= Seq::<PyValue>::empty());
            while i < a.inner.len()
                invariant
                    i <= a.inner.len(),
                    spec_items_to_tokens(a.inner@.subrange(0, i as int), a.dtype, tag) == Ok::<
                        Seq<SpecToken>,
                        SpecEncodeError,
                    >(view_tokens(tokens@)),
                decreases a.inner.len() - i,
            {
                assert(a.inner@.subrange(0, i + 1).subrange(0, i as int) =~= a.inner@.subrange(
                    0,
                    i as int,
                ));
                assert(decreases_to!(*v => a.inner@[i as int]));
                match py_to_token(&a.inner[i], None, Some(&a.dtype)) {
                    Ok(t) => {
                        if t.tag() != tag {
                            proof {
                                lemma_items_prefix_err(a.inner@, i + 1, a.dtype, tag);
                            }
                            return Err(EncodeError::MixedArray);
                        }
                        proof {
                            lemma_view_tokens_push(tokens@, t);
                        }
                        tokens.push(t);
                    },
                    Err(e) => {
                        proof {
                            lemma_items_prefix_err(a.inner@, i + 1, a.dtype, tag);
                        }
                        return Err(e);
                    },
                }
                i += 1;
            }
            assert(a.inner@.subrange(0, a.inner.len() as int) =~= a.inner@);
            Ok(Token::Array(name, tag, tokens))
        },
        PyValue::Int(c) => number(c, expected, true),
        PyValue::Float(c) => number(c, expected, false),
        PyValue::Scalar(s) => Ok(Token::Scalar(name, *s)),
        PyValue::Enum(e) => match &e.inner {
            Some(b) => match py_to_token(b, None, None) {
                Ok(t) => Ok(Token::Enum(name, e.variant_index, Some(Box::new(t)))),
                Err(err) => Err(err),
            },
            None => Ok(Token::Enum(name, e.variant_index, None)),
        },
        PyValue::Vec2(w) => {
            let x = component(&w.x, &w.dtype)?;
            let y = component(&w.y, &w.dtype)?;
            Ok(Token::Vec2(name, x, y))
        },
        PyValue::Vec3(w) => {
            let x = component(&w.x, &w.dtype)?;
            let y = component(&w.y, &w.dtype)?;
            let z = component(&w.z, &w.dtype)?;
            Ok(Token::Vec3(name, x, y, z))
        },
        PyValue::Vec4(w) => {
            let x = component(&w.x, &w.dtype)?;
            let y = component(&w.y, &w.dtype)?;
            let z = component(&w.z, &w.dtype)?;
            let u = component(&w.w, &w.dtype)?;
            Ok(Token::Vec4(name, x, y, z, u))
        },
        PyValue::Unsupported => Err(EncodeError::UnsupportedType(name)),
        PyValue::Unreadable(i) => Err(EncodeError::Unreadable(*i)),
    }
}

} // verus!
