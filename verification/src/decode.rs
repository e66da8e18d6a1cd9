use vstd::prelude::*;

use crate::tag::{kind_of_tag, PyKind, TokenTag};
use crate::token::{lemma_view_tokens, view_token, view_tokens, Scalar, SpecToken, Token};

verus! {

/// The Python value that a token is shown as.
#[derive(Debug, PartialEq, Eq)]
pub enum PyOut {
    /// A dict, built by setting its items in this order.
    Dict(Vec<(String, PyOut)>),
    /// An `Enum` object with its variant index and payload.
    Enum(u8, Option<Box<PyOut>>),
    NoneObj,
    /// The empty array object.
    EmptyArray,
    Bytes(Vec<u8>),
    /// An `Array` object with its elements and its dtype.
    Array(Vec<PyOut>, PyKind),
    /// One of the fixed-width wrapper objects (`U8` to `F64`).
    Wrapper(Scalar),
    /// A plain Python int or float of the value.
    Raw(Scalar),
    Bool(bool),
    Str(String),
    /// A `Vec2` object: its components, each a number made a float, and its dtype.
    Vec2(Scalar, Scalar, PyKind),
    Vec3(Scalar, Scalar, Scalar, PyKind),
    Vec4(Scalar, Scalar, Scalar, Scalar, PyKind),
}

pub enum SpecPyOut {
    Dict(Seq<(Seq<char>, SpecPyOut)>),
    Enum(u8, Option<Box<SpecPyOut>>),
    NoneObj,
    EmptyArray,
    Bytes(Seq<u8>),
    Array(Seq<SpecPyOut>, PyKind),
    Wrapper(Scalar),
    Raw(Scalar),
    Bool(bool),
    Str(Seq<char>),
    Vec2(Scalar, Scalar, PyKind),
    Vec3(Scalar, Scalar, Scalar, PyKind),
    Vec4(Scalar, Scalar, Scalar, Scalar, PyKind),
}

/// Why a token could not be shown as a Python value.
#[derive(Clone, Copy, Debug, PartialEq, Eq, Structural)]
pub enum ToPyError {
    /// An array claims the empty-array kind for its elements.
    InvalidDtype,
    /// A vector component is not a number.
    UnsupportedType,
}

pub open spec fn view_out(o: PyOut) -> SpecPyOut
    decreases o,
{
    match o {
        PyOut::Dict(items) => SpecPyOut::Dict(view_pairs(items@)),
        PyOut::Enum(i, p) => SpecPyOut::Enum(
            i,
            match p {
                Some(b) => Some(Box::new(view_out(*b))),
                None => None,
            },
        ),
        PyOut::NoneObj => SpecPyOut::NoneObj,
        PyOut::EmptyArray => SpecPyOut::EmptyArray,
        PyOut::Bytes(b) => SpecPyOut::Bytes(b@),
        PyOut::Array(items, k) => SpecPyOut::Array(view_outs(items@), k),
        PyOut::Wrapper(s) => SpecPyOut::Wrapper(s),
        PyOut::Raw(s) => SpecPyOut::Raw(s),
        PyOut::Bool(b) => SpecPyOut::Bool(b),
        PyOut::Str(s) => SpecPyOut::Str(s@),
        PyOut::Vec2(a, b, k) => SpecPyOut::Vec2(a, b, k),
        PyOut::Vec3(a, b, c, k) => SpecPyOut::Vec3(a, b, c, k),
        PyOut::Vec4(a, b, c, d, k) => SpecPyOut::Vec4(a, b, c, d, k),
    }
}

pub open spec fn view_outs(s: Seq<PyOut>) -> Seq<SpecPyOut>
    decreases s,
{
    if s.len() == 0 {
        Seq::empty()
    } else {
        view_outs(s.subrange(0, s.len() - 1)).push(view_out(s[s.len() - 1]))
    }
}

pub open spec fn view_pairs(s: Seq<(String, PyOut)>) -> Seq<(Seq<char>, SpecPyOut)>
    decreases s,
{
    if s.len() == 0 {
        Seq::empty()
    } else {
        view_pairs(s.subrange(0, s.len() - 1)).push(
            (s[s.len() - 1].0@, view_out(s[s.len() - 1].1)),
        )
    }
}

impl View for PyOut {
    type V = SpecPyOut;

    open spec fn view(&self) -> SpecPyOut {
        view_out(*self)
    }
}

pub open spec fn view_out_result(r: Result<PyOut, ToPyError>) -> Result<SpecPyOut, ToPyError> {
    match r {
        Ok(o) => Ok(o@),
        Err(e) => Err(e),
    }
}

/// The Python type an array or vector of this kind shows as its dtype.
pub open spec fn spec_token_tag_to_dtype(tag: TokenTag) -> Result<PyKind, ToPyError> {
    match kind_of_tag(tag) {
        Some(k) => Ok(k),
        None => Err(ToPyError::InvalidDtype),
    }
}

/// A vector component must be a plain number.
pub open spec fn spec_token_to_f64(t: SpecToken) -> Result<Scalar, ToPyError> {
    match t {
        SpecToken::Scalar(_, s) => if s.is_number() {
            Ok(s)
        } else {
            Err(ToPyError::UnsupportedType)
        },
        _ => Err(ToPyError::UnsupportedType),
    }
}

/// The dict key of a struct field: its name, or the empty string. That an unnamed
/// field is keyed by the empty string is an assumption about what the format
/// crate's `Token::name()` gives for a token without a name; its source was not
/// available to check it against.
pub open spec fn key_of(name: Option<Seq<char>>) -> Seq<char> {
    match name {
        Some(s) => s,
        None => Seq::empty(),
    }
}

/// The Python value of a token. An optional value shows as its content; the plain
/// numbers show as their wrapper objects, the time values as plain ints.
pub open spec fn spec_token_to_py(t: SpecToken) -> Result<SpecPyOut, ToPyError>
    decreases t, 0nat,
{
    match t {
        SpecToken::Struct(_, fields) => match spec_fields_to_py(fields) {
            Ok(items) => Ok(SpecPyOut::Dict(items)),
            Err(e) => Err(e),
        },
        SpecToken::Enum(_, i, p) => match p {
            Some(b) => match spec_token_to_py(*b) {
                Ok(o) => Ok(SpecPyOut::Enum(i, Some(Box::new(o)))),
                Err(e) => Err(e),
            },
            None => Ok(SpecPyOut::Enum(i, None)),
        },
        SpecToken::SomeVal(_, b) => spec_token_to_py(*b),
        SpecToken::NoneVal(_) => Ok(SpecPyOut::NoneObj),
        SpecToken::EmptyArr(_) => Ok(SpecPyOut::EmptyArray),
        SpecToken::Bytes(_, b) => Ok(SpecPyOut::Bytes(b)),
        SpecToken::Array(_, tag, values) => match spec_elements_to_py(values) {
            Ok(items) => match spec_token_tag_to_dtype(tag) {
                Ok(k) => Ok(SpecPyOut::Array(items, k)),
                Err(e) => Err(e),
            },
            Err(e) => Err(e),
        },
        SpecToken::Scalar(_, s) => if s.is_number() {
            Ok(SpecPyOut::Wrapper(s))
        } else {
            Ok(SpecPyOut::Raw(s))
        },
        SpecToken::Bool(_, b) => Ok(SpecPyOut::Bool(b)),
        SpecToken::Str(_, s) => Ok(SpecPyOut::Str(s)),
        SpecToken::Vec2(_, a, b) => match (spec_token_to_f64(*a), spec_token_to_f64(*b)) {
            (Err(e), _) => Err(e),
            (Ok(_), Err(e)) => Err(e),
            (Ok(x), Ok(y)) => match spec_token_tag_to_dtype(a.tag()) {
                Ok(k) => Ok(SpecPyOut::Vec2(x, y, k)),
                Err(e) => Err(e),
            },
        },
        SpecToken::Vec3(_, a, b, c) => match (
            spec_token_to_f64(*a),
            spec_token_to_f64(*b),
            spec_token_to_f64(*c),
        ) {
            (Err(e), _, _) => Err(e),
            (Ok(_), Err(e), _) => Err(e),
            (Ok(_), Ok(_), Err(e)) => Err(e),
            (Ok(x), Ok(y), Ok(z)) => match spec_token_tag_to_dtype(a.tag()) {
                Ok(k) => Ok(SpecPyOut::Vec3(x, y, z, k)),
                Err(e) => Err(e),
            },
        },
        SpecToken::Vec4(_, a, b, c, d) => match (
            spec_token_to_f64(*a),
            spec_token_to_f64(*b),
            spec_token_to_f64(*c),
            spec_token_to_f64(*d),
        ) {
            (Err(e), _, _, _) => Err(e),
            (Ok(_), Err(e), _, _) => Err(e),
            (Ok(_), Ok(_), Err(e), _) => Err(e),
            (Ok(_), Ok(_), Ok(_), Err(e)) => Err(e),
            (Ok(x), Ok(y), Ok(z), Ok(w)) => match spec_token_tag_to_dtype(a.tag()) {
                Ok(k) => Ok(SpecPyOut::Vec4(x, y, z, w, k)),
                Err(e) => Err(e),
            },
        },
    }
}

/// The items of the dict of a struct, in field order; the first field that fails
/// decides the error.
pub open spec fn spec_fields_to_py(fields: Seq<SpecToken>) -> Result<
    Seq<(Seq<char>, SpecPyOut)>,
    ToPyError,
>
    decreases fields, 0nat,
{
    if fields.len() == 0 {
        Ok(Seq::empty())
    } else {
        match spec_fields_to_py(fields.subrange(0, fields.len() - 1)) {
            Ok(items) => match spec_token_to_py(fields[fields.len() - 1]) {
                Ok(o) => Ok(items.push((key_of(fields[fields.len() - 1].name()), o))),
                Err(e) => Err(e),
            },
            Err(e) => Err(e),
        }
    }
}

/// An element of an array: plain numbers, time values, booleans and strings show
/// as plain Python values; the rest as they would alone.
pub open spec fn spec_element_to_py(t: SpecToken) -> Result<SpecPyOut, ToPyError>
    decreases t, 1nat,
{
    match t {
        SpecToken::Scalar(_, s) => Ok(SpecPyOut::Raw(s)),
        SpecToken::Bool(_, b) => Ok(SpecPyOut::Bool(b)),
        SpecToken::Str(_, s) => Ok(SpecPyOut::Str(s)),
        _ => spec_token_to_py(t),
    }
}

pub open spec fn spec_elements_to_py(values: Seq<SpecToken>) -> Result<Seq<SpecPyOut>, ToPyError>
    decreases values, 0nat,
{
    if values.len() == 0 {
        Ok(Seq::empty())
    } else {
        match spec_elements_to_py(values.subrange(0, values.len() - 1)) {
            Ok(items) => match spec_element_to_py(values[values.len() - 1]) {
                Ok(o) => Ok(items.push(o)),
                Err(e) => Err(e),
            },
            Err(e) => Err(e),
        }
    }
}


pub proof fn lemma_view_outs_push(s: Seq<PyOut>, o: PyOut)
    ensures
        view_outs(s.push(o)) == view_outs(s).push(view_out(o)),
{
    assert(s.push(o).subrange(0, s.len() as int) =~= s);
}

pub proof fn lemma_view_pairs_push(s: Seq<(String, PyOut)>, k: String, o: PyOut)
    ensures
        view_pairs(s.push((k, o))) == view_pairs(s).push((k@, view_out(o))),
{
    assert(s.push((k, o)).subrange(0, s.len() as int) =~= s);
}

/// A field that fails decides the whole struct.
pub proof fn lemma_fields_prefix_err(s: Seq<SpecToken>, k: int)
    requires
        0 <= k <= s.len(),
        spec_fields_to_py(s.subrange(0, k)) is Err,
    ensures
        spec_fields_to_py(s) == spec_fields_to_py(s.subrange(0, k)),
    decreases s.len() - k,
{
    if k == s.len() {
        assert(s.subrange(0, k) =~= s);
    } else {
        assert(s.subrange(0, k + 1).subrange(0, k) =~= s.subrange(0, k));
        lemma_fields_prefix_err(s, k + 1);
    }
}

/// An element that fails decides the whole array.
pub proof fn lemma_elements_prefix_err(s: Seq<SpecToken>, k: int)
    requires
        0 <= k <= s.len(),
        spec_elements_to_py(s.subrange(0, k)) is Err,
    ensures
        spec_elements_to_py(s) == spec_elements_to_py(s.subrange(0, k)),
    decreases s.len() - k,
{
    if k == s.len() {
        assert(s.subrange(0, k) =~= s);
    } else {
        assert(s.subrange(0, k + 1).subrange(0, k) =~= s.subrange(0, k));
        lemma_elements_prefix_err(s, k + 1);
    }
}

/// The Python type an array or vector of this kind shows as its dtype.
pub fn token_tag_to_dtype(tag: TokenTag) -> (r: Result<PyKind, ToPyError>)
    ensures
        r == spec_token_tag_to_dtype(tag),
{
    match tag {
        TokenTag::Bool => Ok(PyKind::Bool),
        TokenTag::Str => Ok(PyKind::Str),
        TokenTag::Bytes => Ok(PyKind::Bytes),
        TokenTag::NoneVal => Ok(PyKind::NoneType),
        TokenTag::Array => Ok(PyKind::List),
        TokenTag::Struct => Ok(PyKind::Dict),
        TokenTag::U8 => Ok(PyKind::U8),
        TokenTag::U16 => Ok(PyKind::U16),
        TokenTag::U32 => Ok(PyKind::U32),
        TokenTag::U64 => Ok(PyKind::U64),
        TokenTag::I8 => Ok(PyKind::I8),
        TokenTag::I16 => Ok(PyKind::I16),
        TokenTag::I32 => Ok(PyKind::I32),
        TokenTag::I64 => Ok(PyKind::I64),
        TokenTag::F32 => Ok(PyKind::F32),
        TokenTag::F64 => Ok(PyKind::F64),
        TokenTag::Enum => Ok(PyKind::Enum),
        TokenTag::SomeVal => Ok(PyKind::SomeValue),
        TokenTag::TimestampMillis => Ok(PyKind::TimestampMillis),
        TokenTag::TimestampMicros => Ok(PyKind::TimestampMicros),
        TokenTag::MillisSinceBoot => Ok(PyKind::MillisSinceBoot),
        TokenTag::MicrosSinceBoot => Ok(PyKind::MicrosSinceBoot),
        TokenTag::DurationMillis => Ok(PyKind::DurationMillis),
        TokenTag::DurationMicros => Ok(PyKind::DurationMicros),
        TokenTag::Vec2 => Ok(PyKind::Vec2),
        TokenTag::Vec3 => Ok(PyKind::Vec3),
        TokenTag::Vec4 => Ok(PyKind::Vec4),
        TokenTag::EmptyArr => Err(ToPyError::InvalidDtype),
    }
}

/// A vector component must be a plain number; the caller makes it a float.
pub fn token_to_f64(t: &Token) -> (r: Result<Scalar, ToPyError>)
    ensures
        r == spec_token_to_f64(t@),
{
    match t {
        Token::Scalar(_, s) => match s {
            Scalar::U8(_) | Scalar::U16(_) | Scalar::U32(_) | Scalar::U64(_) | Scalar::I8(_)
            | Scalar::I16(_) | Scalar::I32(_) | Scalar::I64(_) | Scalar::F32(_) | Scalar::F64(
                _,
            ) => Ok(*s),
            _ => Err(ToPyError::UnsupportedType),
        },
        _ => Err(ToPyError::UnsupportedType),
    }
}

fn clone_name(n: &Option<String>) -> (s: String)
    ensures
        s@ == key_of(crate::token::view_name(*n)),
{
    match n {
        Some(s) => s.clone(),
        None => String::new(),
    }
}

/// The dict key of a struct field: its name, or the empty string.
pub fn name_key(t: &Token) -> (s: String)
    ensures
        s@ == key_of(t@.name()),
{
    match t {
        Token::Bool(n, ..) => clone_name(n),
        Token::Str(n, ..) => clone_name(n),
        Token::Bytes(n, ..) => clone_name(n),
        Token::NoneVal(n) => clone_name(n),
        Token::SomeVal(n, ..) => clone_name(n),
        Token::Array(n, ..) => clone_name(n),
        Token::Struct(n, ..) => clone_name(n),
        Token::EmptyArr(n) => clone_name(n),
        Token::Scalar(n, ..) => clone_name(n),
        Token::Enum(n, ..) => clone_name(n),
        Token::Vec2(n, ..) => clone_name(n),
        Token::Vec3(n, ..) => clone_name(n),
        Token::Vec4(n, ..) => clone_name(n),
    }
}

fn copy_bytes(b: &Vec<u8>) -> (r: Vec<u8>)
    ensures
        r@ == b@,
{
    let r = b.clone();
    assert(r@ =~= b@);
    r
}

/// The dict of a struct token.
#[verifier::loop_isolation(false)]
fn struct_to_py(t: &Token) -> (r: Result<PyOut, ToPyError>)
    requires
        t is Struct,
    ensures
        view_out_result(r) == spec_token_to_py(t@),
    decreases t, 1nat,
{
    let fields = match t {
        Token::Struct(_, fields) => fields,
        _ => {
            return Err(ToPyError::UnsupportedType);
        },
    };
    proof {
        lemma_view_tokens(fields@);
    }
    let ghost fs = view_tokens(fields@);
    let mut items: Vec<(String, PyOut)> = Vec::new();
    let mut i: usize = 0;
    assert(fs.subrange(0, 0) =~= Seq::<SpecToken>::empty());
    while i < fields.len()
        invariant
            i <= fields.len(),
            fs.len() == fields.len(),
            spec_fields_to_py(fs.subrange(0, i as int)) == Ok::<
                Seq<(Seq<char>, SpecPyOut)>,
                ToPyError,
            >(view_pairs(items@)),
        decreases fields.len() - i,
    {
        let f = &fields[i];
        assert(fs[i as int] == view_token(fields@[i as int]));
        assert(fs.subrange(0, i + 1).subrange(0, i as int) =~= fs.subrange(0, i as int));
        assert(decreases_to!(*t => fields@[i as int]));
        match token_to_py(f) {
            Ok(o) => {
                let k = name_key(f);
                proof {
                    lemma_view_pairs_push(items@, k, o);
                }
                items.push((k, o));
            },
            Err(e) => {
                proof {
                    lemma_fields_prefix_err(fs, i + 1);
                }
                return Err(e);
            },
        }
        i += 1;
    }
    assert(fs.subrange(0, fields.len() as int) =~= fs);
    Ok(PyOut::Dict(items))
}

/// An element of an array.
fn element_to_py(v: &Token) -> (r: Result<PyOut, ToPyError>)
    ensures
        view_out_result(r) == spec_element_to_py(v@),
    decreases v, 3nat,
{
    match v {
        Token::Scalar(_, s) => Ok(PyOut::Raw(*s)),
        Token::Bool(_, b) => Ok(PyOut::Bool(*b)),
        Token::Str(_, s) => Ok(PyOut::Str(s.clone())),
        other => token_to_py(other),
    }
}

/// The `Array` object of an array token.
#[verifier::loop_isolation(false)]
fn array_to_py(t: &Token) -> (r: Result<PyOut, ToPyError>)
    requires
        t is Array,
    ensures
        view_out_result(r) == spec_token_to_py(t@),
    decreases t, 1nat,
{
    let (tag, values) = match t {
        Token::Array(_, tag, values) => (tag, values),
        _ => {
            return Err(ToPyError::UnsupportedType);
        },
    };
    proof {
        lemma_view_tokens(values@);
    }
    let ghost vs = view_tokens(values@);
    let mut items: Vec<PyOut> = Vec::new();
    let mut i: usize = 0;
    assert(vs.subrange(0, 0) =~= Seq::<SpecToken>::empty());
    while i < values.len()
        invariant
            i <= values.len(),
            vs.len() == values.len(),
            spec_elements_to_py(vs.subrange(0, i as int)) == Ok::<Seq<SpecPyOut>, ToPyError>(
                view_outs(items@),
            ),
        decreases values.len() - i,
    {
        assert(vs[i as int] == view_token(values@[i as int]));
        assert(vs.subrange(0, i + 1).subrange(0, i as int) =~= vs.subrange(0, i as int));
        assert(decreases_to!(*t => values@[i as int]));
        match element_to_py(&values[i]) {
            Ok(o) => {
                proof {
                    lemma_view_outs_push(items@, o);
                }
                items.push(o);
            },
            Err(e) => {
                proof {
                    lemma_elements_prefix_err(vs, i + 1);
                }
                return Err(e);
            },
        }
        i += 1;
    }
    assert(vs.subrange(0, values.len() as int) =~= vs);
    let k = token_tag_to_dtype(*tag)?;
    Ok(PyOut::Array(items, k))
}

/// The Python value of a token.
pub fn token_to_py(t: &Token) -> (r: Result<PyOut, ToPyError>)
    ensures
        view_out_result(r) == spec_token_to_py(t@),
    decreases t, 2nat,
{
    match t {
        Token::Struct(..) => struct_to_py(t),
        Token::Enum(_, i, p) => match p {
            Some(b) => match token_to_py(b) {
                Ok(o) => Ok(PyOut::Enum(*i, Some(Box::new(o)))),
                Err(e) => Err(e),
            },
            None => Ok(PyOut::Enum(*i, None)),
        },
        Token::SomeVal(_, b) => token_to_py(b),
        Token::NoneVal(_) => Ok(PyOut::NoneObj),
        Token::EmptyArr(_) => Ok(PyOut::EmptyArray),
        Token::Bytes(_, b) => Ok(PyOut::Bytes(copy_bytes(b))),
        Token::Array(..) => array_to_py(t),
        Token::Scalar(_, s) => match s {
            Scalar::U8(_) | Scalar::U16(_) | Scalar::U32(_) | Scalar::U64(_) | Scalar::I8(_)
            | Scalar::I16(_) | Scalar::I32(_) | Scalar::I64(_) | Scalar::F32(_) | Scalar::F64(
                _,
            ) => Ok(PyOut::Wrapper(*s)),
            _ => Ok(PyOut::Raw(*s)),
        },
        Token::Bool(_, b) => Ok(PyOut::Bool(*b)),
        Token::Str(_, s) => Ok(PyOut::Str(s.clone())),
        Token::Vec2(_, a, b) => {
            let x = token_to_f64(a)?;
            let y = token_to_f64(b)?;
            let k = token_tag_to_dtype(a.tag())?;
            Ok(PyOut::Vec2(x, y, k))
        },
        Token::Vec3(_, a, b, c) => {
            let x = token_to_f64(a)?;
            let y = token_to_f64(b)?;
            let z = token_to_f64(c)?;
            let k = token_tag_to_dtype(a.tag())?;
            Ok(PyOut::Vec3(x, y, z, k))
        },
        Token::Vec4(_, a, b, c, d) => {
            let x = token_to_f64(a)?;
            let y = token_to_f64(b)?;
            let z = token_to_f64(c)?;
            let w = token_to_f64(d)?;
            let k = token_tag_to_dtype(a.tag())?;
            Ok(PyOut::Vec4(x, y, z, w, k))
        },
    }
}

} // verus!
