use vstd::prelude::*;

use crate::decode::{
    spec_element_to_py, spec_elements_to_py, spec_fields_to_py, spec_token_tag_to_dtype,
    spec_token_to_f64, spec_token_to_py, SpecPyOut, ToPyError,
};
use crate::encode::{
    spec_entries_to_tokens, spec_f64_to_token, spec_items_to_tokens, spec_py_to_token,
    spec_type_to_token_tag, SpecEncodeError,
};
use crate::tag::{PyKind, TokenTag};
use crate::token::{Scalar, SpecToken};
use crate::types::{Dtype, DtypeKind, PyValue};

verus! {

/// The plain numbers: the eight integer widths and the two float widths.
pub open spec fn plain_number(s: Scalar) -> bool {
    s is U8 || s is U16 || s is U32 || s is U64 || s is I8 || s is I16 || s is I32 || s is I64
        || s is F32 || s is F64
}


/// A Python type used as the dtype of an array gives a kind of token that is shown
/// again as that same Python type when the array is decoded.
pub proof fn law_dtype_round_trip(dtype: Dtype, k: PyKind)
    requires
        dtype.kind == DtypeKind::Class(k),
    ensures
        spec_type_to_token_tag(dtype) is Ok,
        spec_token_tag_to_dtype(spec_type_to_token_tag(dtype)->Ok_0) == Ok::<PyKind, ToPyError>(k),
{
}

/// Every kind of token but the empty array is shown as a Python type which, used
/// as a dtype, gives that kind back.
pub proof fn law_tag_round_trip(tag: TokenTag, dtype: Dtype)
    requires
        tag != TokenTag::EmptyArr,
        spec_token_tag_to_dtype(tag) is Ok,
        dtype.kind == DtypeKind::Class(spec_token_tag_to_dtype(tag)->Ok_0),
    ensures
        spec_type_to_token_tag(dtype) == Ok::<TokenTag, SpecEncodeError>(tag),
{
}

/// The empty-array kind is the one kind that has no Python type.
pub proof fn law_empty_array_has_no_dtype()
    ensures
        spec_token_tag_to_dtype(TokenTag::EmptyArr) is Err,
{
}

/// The token of a value carries the name it was converted under; the one exception
/// is a bare Python number, which a dtype turns into an unnamed token.
pub proof fn law_token_keeps_name(v: PyValue, name: Option<Seq<char>>, expected: Option<Dtype>)
    requires
        !(v is Int),
        !(v is Float),
        spec_py_to_token(v, name, expected) is Ok,
    ensures
        spec_py_to_token(v, name, expected)->Ok_0.name() == name,
{
    match v {
        PyValue::Dict(entries) => {},
        PyValue::Array(a) => {},
        PyValue::Vec2(w) => {},
        PyValue::Vec3(w) => {},
        PyValue::Vec4(w) => {},
        _ => {},
    }
}

/// The fields of the struct a dict becomes are named by the dict's keys, in order.
pub proof fn law_dict_fields_named_by_keys(entries: Seq<(String, PyValue)>)
    requires
        spec_entries_to_tokens(entries) is Ok,
    ensures
        spec_entries_to_tokens(entries)->Ok_0.len() == entries.len(),
        forall|i: int|
            0 <= i < entries.len() ==> (#[trigger] spec_entries_to_tokens(entries)->Ok_0[i]).name()
                == Some(entries[i].0@),
    decreases entries.len(),
{
    if entries.len() > 0 {
        let prefix = entries.subrange(0, entries.len() - 1);
        law_dict_fields_named_by_keys(prefix);
        let last = entries[entries.len() - 1];
        lemma_not_bare_number(last.1, Some(last.0@));
        law_token_keeps_name(last.1, Some(last.0@), None);
        assert forall|i: int| 0 <= i < entries.len() implies (#[trigger] spec_entries_to_tokens(
            entries,
        )->Ok_0[i]).name() == Some(entries[i].0@) by {
            if i < entries.len() - 1 {
                assert(prefix[i] == entries[i]);
            }
        }
    }
}


/// Every array inside a token has a kind other than the empty array, and holds
/// only elements of that kind.
pub open spec fn arrays_homogeneous(t: SpecToken) -> bool
    decreases t,
{
    match t {
        SpecToken::Array(_, tag, items) => tag != TokenTag::EmptyArr && (forall|i: int|
            0 <= i < items.len() ==> (#[trigger] items[i]).tag() == tag) && all_homogeneous(items),
        SpecToken::Struct(_, fields) => all_homogeneous(fields),
        SpecToken::SomeVal(_, b) => arrays_homogeneous(*b),
        SpecToken::Enum(_, _, p) => match p {
            Some(b) => arrays_homogeneous(*b),
            None => true,
        },
        SpecToken::Vec2(_, a, b) => arrays_homogeneous(*a) && arrays_homogeneous(*b),
        SpecToken::Vec3(_, a, b, c) => arrays_homogeneous(*a) && arrays_homogeneous(*b)
            && arrays_homogeneous(*c),
        SpecToken::Vec4(_, a, b, c, d) => arrays_homogeneous(*a) && arrays_homogeneous(*b)
            && arrays_homogeneous(*c) && arrays_homogeneous(*d),
        _ => true,
    }
}

pub open spec fn all_homogeneous(s: Seq<SpecToken>) -> bool
    decreases s,
{
    if s.len() == 0 {
        true
    } else {
        all_homogeneous(s.subrange(0, s.len() - 1)) && arrays_homogeneous(s[s.len() - 1])
    }
}

proof fn lemma_all_homogeneous_push(s: Seq<SpecToken>, t: SpecToken)
    ensures
        all_homogeneous(s.push(t)) == (all_homogeneous(s) && arrays_homogeneous(t)),
{
    assert(s.push(t).subrange(0, s.len() as int) =~= s);
}

/// Every token the encoder makes holds arrays of a real kind whose elements are all
/// of that kind, at any depth.
pub proof fn law_encoded_arrays_homogeneous(
    v: PyValue,
    name: Option<Seq<char>>,
    expected: Option<Dtype>,
)
    requires
        spec_py_to_token(v, name, expected) is Ok,
    ensures
        arrays_homogeneous(spec_py_to_token(v, name, expected)->Ok_0),
    decreases v,
{
    match v {
        PyValue::Dict(entries) => {
            lemma_entries_homogeneous(entries@);
        },
        PyValue::SomeObj(s) => {
            law_encoded_arrays_homogeneous(*s.inner, None, None);
        },
        PyValue::Array(a) => {
            let tag = spec_type_to_token_tag(a.dtype)->Ok_0;
            lemma_items_homogeneous(a.inner@, a.dtype, tag);
        },
        PyValue::Enum(e) => {
            match e.inner {
                Some(b) => {
                    law_encoded_arrays_homogeneous(*b, None, None);
                },
                None => {},
            }
        },
        PyValue::Vec2(w) => {
            reveal_with_fuel(arrays_homogeneous, 2);
        },
        PyValue::Vec3(w) => {
            reveal_with_fuel(arrays_homogeneous, 2);
        },
        PyValue::Vec4(w) => {
            reveal_with_fuel(arrays_homogeneous, 2);
        },
        _ => {},
    }
}

proof fn lemma_entries_homogeneous(s: Seq<(String, PyValue)>)
    requires
        spec_entries_to_tokens(s) is Ok,
    ensures
        all_homogeneous(spec_entries_to_tokens(s)->Ok_0),
    decreases s,
{
    if s.len() > 0 {
        let prefix = s.subrange(0, s.len() - 1);
        lemma_entries_homogeneous(prefix);
        let last = s[s.len() - 1];
        law_encoded_arrays_homogeneous(last.1, Some(last.0@), None);
        lemma_all_homogeneous_push(
            spec_entries_to_tokens(prefix)->Ok_0,
            spec_py_to_token(last.1, Some(last.0@), None)->Ok_0,
        );
    }
}

proof fn lemma_items_homogeneous(s: Seq<PyValue>, dtype: Dtype, tag: TokenTag)
    requires
        spec_items_to_tokens(s, dtype, tag) is Ok,
    ensures
        all_homogeneous(spec_items_to_tokens(s, dtype, tag)->Ok_0),
        forall|i: int|
            0 <= i < s.len() ==> (#[trigger] spec_items_to_tokens(s, dtype, tag)->Ok_0[i]).tag()
                == tag,
        spec_items_to_tokens(s, dtype, tag)->Ok_0.len() == s.len(),
    decreases s,
{
    if s.len() > 0 {
        let prefix = s.subrange(0, s.len() - 1);
        lemma_items_homogeneous(prefix, dtype, tag);
        let last = s[s.len() - 1];
        law_encoded_arrays_homogeneous(last, None, Some(dtype));
        let ts = spec_items_to_tokens(prefix, dtype, tag)->Ok_0;
        let t = spec_py_to_token(last, None, Some(dtype))->Ok_0;
        lemma_all_homogeneous_push(ts, t);
        assert(spec_items_to_tokens(s, dtype, tag)->Ok_0 == ts.push(t));
        assert forall|i: int| 0 <= i < s.len() implies (#[trigger] spec_items_to_tokens(
            s,
            dtype,
            tag,
        )->Ok_0[i]).tag() == tag by {
            if i < s.len() - 1 {
                assert(ts.push(t)[i] == ts[i]);
            }
        }
    }
}


/// The Python type a dtype names or is an instance of.
pub open spec fn dtype_kind(d: Dtype) -> PyKind {
    match d.kind {
        DtypeKind::Class(k) => k,
        DtypeKind::Instance(k) => k,
        DtypeKind::Other => PyKind::NoneType,
    }
}

/// What decoding gives back of a value that was encoded: a dict with the same
/// keys in the same order; an explicit optional value as its content; the plain
/// number wrappers as themselves and the time values as plain ints; arrays with
/// their elements as plain values and their dtype; vectors with their components
/// at the width of their dtype.
pub open spec fn echo(v: PyValue) -> SpecPyOut
    decreases v, 0nat,
{
    match v {
        PyValue::Dict(entries) => SpecPyOut::Dict(echo_entries(entries@)),
        PyValue::NoneObj => SpecPyOut::NoneObj,
        PyValue::SomeObj(s) => echo(*s.inner),
        PyValue::Bool(b) => SpecPyOut::Bool(b),
        PyValue::Str(s) => SpecPyOut::Str(s@),
        PyValue::Bytes(b) => SpecPyOut::Bytes(b@),
        PyValue::Array(a) => SpecPyOut::Array(echo_items(a.inner@, a.dtype), dtype_kind(a.dtype)),
        PyValue::Scalar(s) => if plain_number(s) {
            SpecPyOut::Wrapper(s)
        } else {
            SpecPyOut::Raw(s)
        },
        PyValue::Enum(e) => SpecPyOut::Enum(
            e.variant_index,
            match e.inner {
                Some(b) => Some(Box::new(echo(*b))),
                None => None,
            },
        ),
        PyValue::Vec2(w) => SpecPyOut::Vec2(
            spec_f64_to_token(w.x, w.dtype)->Ok_0,
            spec_f64_to_token(w.y, w.dtype)->Ok_0,
            dtype_kind(w.dtype),
        ),
        PyValue::Vec3(w) => SpecPyOut::Vec3(
            spec_f64_to_token(w.x, w.dtype)->Ok_0,
            spec_f64_to_token(w.y, w.dtype)->Ok_0,
            spec_f64_to_token(w.z, w.dtype)->Ok_0,
            dtype_kind(w.dtype),
        ),
        PyValue::Vec4(w) => SpecPyOut::Vec4(
            spec_f64_to_token(w.x, w.dtype)->Ok_0,
            spec_f64_to_token(w.y, w.dtype)->Ok_0,
            spec_f64_to_token(w.z, w.dtype)->Ok_0,
            spec_f64_to_token(w.w, w.dtype)->Ok_0,
            dtype_kind(w.dtype),
        ),
        _ => SpecPyOut::NoneObj,
    }
}

/// What decoding gives back of an element of an encoded array.
pub open spec fn echo_element(v: PyValue, d: Dtype) -> SpecPyOut
    decreases v, 1nat,
{
    match v {
        PyValue::Int(c) => SpecPyOut::Raw(spec_f64_to_token(c, d)->Ok_0),
        PyValue::Float(c) => SpecPyOut::Raw(spec_f64_to_token(c, d)->Ok_0),
        PyValue::Scalar(s) => SpecPyOut::Raw(s),
        PyValue::Bool(b) => SpecPyOut::Bool(b),
        PyValue::Str(s) => SpecPyOut::Str(s@),
        _ => echo(v),
    }
}

pub open spec fn echo_entries(s: Seq<(String, PyValue)>) -> Seq<(Seq<char>, SpecPyOut)>
    decreases s, 0nat,
{
    if s.len() == 0 {
        Seq::empty()
    } else {
        echo_entries(s.subrange(0, s.len() - 1)).push((s[s.len() - 1].0@, echo(s[s.len() - 1].1)))
    }
}

pub open spec fn echo_items(s: Seq<PyValue>, d: Dtype) -> Seq<SpecPyOut>
    decreases s, 0nat,
{
    if s.len() == 0 {
        Seq::empty()
    } else {
        echo_items(s.subrange(0, s.len() - 1), d).push(echo_element(s[s.len() - 1], d))
    }
}

proof fn lemma_not_bare_number(v: PyValue, name: Option<Seq<char>>)
    requires
        spec_py_to_token(v, name, None) is Ok,
    ensures
        !(v is Int),
        !(v is Float),
{
}

/// Decoding what the encoder made of a value gives back `echo` of the value,
/// whenever decoding succeeds.
pub proof fn law_decode_of_encode(v: PyValue, name: Option<Seq<char>>)
    requires
        spec_py_to_token(v, name, None) is Ok,
        spec_token_to_py(spec_py_to_token(v, name, None)->Ok_0) is Ok,
    ensures
        spec_token_to_py(spec_py_to_token(v, name, None)->Ok_0) == Ok::<SpecPyOut, ToPyError>(
            echo(v),
        ),
{
    lemma_not_bare_number(v, name);
    lemma_round_trip(v, name, None);
}

proof fn lemma_round_trip(v: PyValue, name: Option<Seq<char>>, expected: Option<Dtype>)
    requires
        !(v is Int),
        !(v is Float),
        spec_py_to_token(v, name, expected) is Ok,
        spec_token_to_py(spec_py_to_token(v, name, expected)->Ok_0) is Ok,
    ensures
        spec_token_to_py(spec_py_to_token(v, name, expected)->Ok_0) == Ok::<SpecPyOut, ToPyError>(
            echo(v),
        ),
    decreases v, 0nat,
{
    match v {
        PyValue::Dict(entries) => {
            lemma_entries_round_trip(entries@);
        },
        PyValue::SomeObj(s) => {
            lemma_not_bare_number(*s.inner, None);
            lemma_round_trip(*s.inner, None, None);
        },
        PyValue::Array(a) => {
            let tag = spec_type_to_token_tag(a.dtype)->Ok_0;
            lemma_items_round_trip(a.inner@, a.dtype, tag);
        },
        PyValue::Enum(e) => {
            match e.inner {
                Some(b) => {
                    lemma_not_bare_number(*b, None);
                    lemma_round_trip(*b, None, None);
                },
                None => {},
            }
        },
        PyValue::Vec2(w) => {},
        PyValue::Vec3(w) => {},
        PyValue::Vec4(w) => {},
        _ => {},
    }
}

proof fn lemma_element_round_trip(v: PyValue, d: Dtype)
    requires
        spec_py_to_token(v, None, Some(d)) is Ok,
        spec_element_to_py(spec_py_to_token(v, None, Some(d))->Ok_0) is Ok,
    ensures
        spec_element_to_py(spec_py_to_token(v, None, Some(d))->Ok_0) == Ok::<SpecPyOut, ToPyError>(
            echo_element(v, d),
        ),
    decreases v, 1nat,
{
    match v {
        PyValue::Int(c) => {},
        PyValue::Float(c) => {},
        PyValue::Scalar(s) => {},
        PyValue::Bool(b) => {},
        PyValue::Str(s) => {},
        _ => {
            lemma_round_trip(v, None, Some(d));
        },
    }
}

proof fn lemma_entries_round_trip(s: Seq<(String, PyValue)>)
    requires
        spec_entries_to_tokens(s) is Ok,
        spec_fields_to_py(spec_entries_to_tokens(s)->Ok_0) is Ok,
    ensures
        spec_fields_to_py(spec_entries_to_tokens(s)->Ok_0) == Ok::<
            Seq<(Seq<char>, SpecPyOut)>,
            ToPyError,
        >(echo_entries(s)),
    decreases s, 0nat,
{
    if s.len() > 0 {
        let prefix = s.subrange(0, s.len() - 1);
        let last = s[s.len() - 1];
        let ts = spec_entries_to_tokens(prefix)->Ok_0;
        let t = spec_py_to_token(last.1, Some(last.0@), None)->Ok_0;
        assert(ts.push(t).subrange(0, ts.len() as int) =~= ts);
        assert(ts.push(t)[ts.len() as int] == t);
        lemma_entries_round_trip(prefix);
        lemma_not_bare_number(last.1, Some(last.0@));
        law_token_keeps_name(last.1, Some(last.0@), None);
        lemma_round_trip(last.1, Some(last.0@), None);
    }
}

proof fn lemma_items_round_trip(s: Seq<PyValue>, d: Dtype, tag: TokenTag)
    requires
        spec_items_to_tokens(s, d, tag) is Ok,
        spec_elements_to_py(spec_items_to_tokens(s, d, tag)->Ok_0) is Ok,
    ensures
        spec_elements_to_py(spec_items_to_tokens(s, d, tag)->Ok_0) == Ok::<
            Seq<SpecPyOut>,
            ToPyError,
        >(echo_items(s, d)),
    decreases s, 0nat,
{
    if s.len() > 0 {
        let prefix = s.subrange(0, s.len() - 1);
        let last = s[s.len() - 1];
        let ts = spec_items_to_tokens(prefix, d, tag)->Ok_0;
        let t = spec_py_to_token(last, None, Some(d))->Ok_0;
        assert(ts.push(t).subrange(0, ts.len() as int) =~= ts);
        assert(ts.push(t)[ts.len() as int] == t);
        lemma_items_round_trip(prefix, d, tag);
        lemma_element_round_trip(last, d);
    }
}


/// A token the decoder takes: its arrays have a kind other than the empty array and
/// its vectors hold plain numbers, at any depth.
pub open spec fn decodable(t: SpecToken) -> bool
    decreases t, 0nat,
{
    match t {
        SpecToken::Array(_, tag, items) => tag != TokenTag::EmptyArr && all_decodable(items),
        SpecToken::Struct(_, fields) => all_decodable(fields),
        SpecToken::SomeVal(_, b) => decodable(*b),
        SpecToken::Enum(_, _, p) => match p {
            Some(b) => decodable(*b),
            None => true,
        },
        SpecToken::Vec2(_, a, b) => spec_token_to_f64(*a) is Ok && spec_token_to_f64(*b) is Ok,
        SpecToken::Vec3(_, a, b, c) => spec_token_to_f64(*a) is Ok && spec_token_to_f64(*b) is Ok
            && spec_token_to_f64(*c) is Ok,
        SpecToken::Vec4(_, a, b, c, d) => spec_token_to_f64(*a) is Ok && spec_token_to_f64(*b) is Ok
            && spec_token_to_f64(*c) is Ok && spec_token_to_f64(*d) is Ok,
        _ => true,
    }
}

pub open spec fn all_decodable(s: Seq<SpecToken>) -> bool
    decreases s, 0nat,
{
    if s.len() == 0 {
        true
    } else {
        all_decodable(s.subrange(0, s.len() - 1)) && decodable(s[s.len() - 1])
    }
}

/// The decoder takes exactly the tokens whose arrays have a real kind and whose
/// vectors hold plain numbers.
pub proof fn law_decodable(t: SpecToken)
    ensures
        spec_token_to_py(t) is Ok <==> decodable(t),
    decreases t, 0nat,
{
    match t {
        SpecToken::Array(_, tag, items) => {
            lemma_elements_decodable(items);
        },
        SpecToken::Struct(_, fields) => {
            lemma_fields_decodable(fields);
        },
        SpecToken::SomeVal(_, b) => {
            law_decodable(*b);
        },
        SpecToken::Enum(_, _, p) => {
            match p {
                Some(b) => {
                    law_decodable(*b);
                },
                None => {},
            }
        },
        _ => {},
    }
}

proof fn lemma_element_decodable(t: SpecToken)
    ensures
        spec_element_to_py(t) is Ok <==> decodable(t),
    decreases t, 1nat,
{
    match t {
        SpecToken::Scalar(..) => {},
        SpecToken::Bool(..) => {},
        SpecToken::Str(..) => {},
        _ => {
            law_decodable(t);
        },
    }
}

proof fn lemma_fields_decodable(s: Seq<SpecToken>)
    ensures
        spec_fields_to_py(s) is Ok <==> all_decodable(s),
    decreases s, 0nat,
{
    if s.len() > 0 {
        lemma_fields_decodable(s.subrange(0, s.len() - 1));
        law_decodable(s[s.len() - 1]);
    }
}

proof fn lemma_elements_decodable(s: Seq<SpecToken>)
    ensures
        spec_elements_to_py(s) is Ok <==> all_decodable(s),
    decreases s, 0nat,
{
    if s.len() > 0 {
        lemma_elements_decodable(s.subrange(0, s.len() - 1));
        lemma_element_decodable(s[s.len() - 1]);
    }
}

} // verus!
