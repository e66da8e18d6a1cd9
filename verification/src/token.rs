use vstd::prelude::*;

use crate::tag::TokenTag;

verus! {

/// A fixed-width value: the integers, the floats (held by their IEEE bit
/// patterns) and the time and duration values of the format.
#[derive(Clone, Copy, Debug, PartialEq, Eq, Structural)]
pub enum Scalar {
    U8(u8),
    U16(u16),
    U32(u32),
    U64(u64),
    I8(i8),
    I16(i16),
    I32(i32),
    I64(i64),
    F32(u32),
    F64(u64),
    TimestampMillis(u64),
    TimestampMicros(u64),
    MillisSinceBoot(u64),
    MicrosSinceBoot(u64),
    DurationMillis(i64),
    DurationMicros(i64),
}

impl Scalar {
    pub open spec fn spec_tag(&self) -> TokenTag {
        match self {
            Scalar::U8(_) => TokenTag::U8,
            Scalar::U16(_) => TokenTag::U16,
            Scalar::U32(_) => TokenTag::U32,
            Scalar::U64(_) => TokenTag::U64,
            Scalar::I8(_) => TokenTag::I8,
            Scalar::I16(_) => TokenTag::I16,
            Scalar::I32(_) => TokenTag::I32,
            Scalar::I64(_) => TokenTag::I64,
            Scalar::F32(_) => TokenTag::F32,
            Scalar::F64(_) => TokenTag::F64,
            Scalar::TimestampMillis(_) => TokenTag::TimestampMillis,
            Scalar::TimestampMicros(_) => TokenTag::TimestampMicros,
            Scalar::MillisSinceBoot(_) => TokenTag::MillisSinceBoot,
            Scalar::MicrosSinceBoot(_) => TokenTag::MicrosSinceBoot,
            Scalar::DurationMillis(_) => TokenTag::DurationMillis,
            Scalar::DurationMicros(_) => TokenTag::DurationMicros,
        }
    }

    /// The plain numbers: the integers and the floats, not the time values.
    pub open spec fn is_number(self) -> bool {
        match self {
            Scalar::U8(_) | Scalar::U16(_) | Scalar::U32(_) | Scalar::U64(_) | Scalar::I8(_)
            | Scalar::I16(_) | Scalar::I32(_) | Scalar::I64(_) | Scalar::F32(_) | Scalar::F64(
                _,
            ) => true,
            _ => false,
        }
    }

    /// The kind of this value.
    #[verifier::when_used_as_spec(spec_tag)]
    pub fn tag(&self) -> (t: TokenTag)
        ensures
            t == self.spec_tag(),
    {
        match self {
            Scalar::U8(_) => TokenTag::U8,
            Scalar::U16(_) => TokenTag::U16,
            Scalar::U32(_) => TokenTag::U32,
            Scalar::U64(_) => TokenTag::U64,
            Scalar::I8(_) => TokenTag::I8,
            Scalar::I16(_) => TokenTag::I16,
            Scalar::I32(_) => TokenTag::I32,
            Scalar::I64(_) => TokenTag::I64,
            Scalar::F32(_) => TokenTag::F32,
            Scalar::F64(_) => TokenTag::F64,
            Scalar::TimestampMillis(_) => TokenTag::TimestampMillis,
            Scalar::TimestampMicros(_) => TokenTag::TimestampMicros,
            Scalar::MillisSinceBoot(_) => TokenTag::MillisSinceBoot,
            Scalar::MicrosSinceBoot(_) => TokenTag::MicrosSinceBoot,
            Scalar::DurationMillis(_) => TokenTag::DurationMillis,
            Scalar::DurationMicros(_) => TokenTag::DurationMicros,
        }
    }
}

/// The optional field name that every token carries.
pub type Name = Option<String>;

/// A token of the binary format. Every token carries an optional name, which is
/// the key of the field when the token stands inside a struct.
#[derive(Debug, PartialEq, Eq)]
pub enum Token {
    Bool(Name, bool),
    Str(Name, String),
    Bytes(Name, Vec<u8>),
    NoneVal(Name),
    SomeVal(Name, Box<Token>),
    /// An array with the kind of its elements.
    Array(Name, TokenTag, Vec<Token>),
    Struct(Name, Vec<Token>),
    EmptyArr(Name),
    Scalar(Name, Scalar),
    /// An enum value: the index of its variant and the payload, if any.
    Enum(Name, u8, Option<Box<Token>>),
    Vec2(Name, Box<Token>, Box<Token>),
    Vec3(Name, Box<Token>, Box<Token>, Box<Token>),
    Vec4(Name, Box<Token>, Box<Token>, Box<Token>, Box<Token>),
}

/// The mathematical value of a token: names, strings and byte strings as sequences.
pub enum SpecToken {
    Bool(Option<Seq<char>>, bool),
    Str(Option<Seq<char>>, Seq<char>),
    Bytes(Option<Seq<char>>, Seq<u8>),
    NoneVal(Option<Seq<char>>),
    SomeVal(Option<Seq<char>>, Box<SpecToken>),
    Array(Option<Seq<char>>, TokenTag, Seq<SpecToken>),
    Struct(Option<Seq<char>>, Seq<SpecToken>),
    EmptyArr(Option<Seq<char>>),
    Scalar(Option<Seq<char>>, Scalar),
    Enum(Option<Seq<char>>, u8, Option<Box<SpecToken>>),
    Vec2(Option<Seq<char>>, Box<SpecToken>, Box<SpecToken>),
    Vec3(Option<Seq<char>>, Box<SpecToken>, Box<SpecToken>, Box<SpecToken>),
    Vec4(Option<Seq<char>>, Box<SpecToken>, Box<SpecToken>, Box<SpecToken>, Box<SpecToken>),
}

impl SpecToken {
    /// The kind of a token.
    pub open spec fn tag(self) -> TokenTag {
        match self {
            SpecToken::Bool(..) => TokenTag::Bool,
            SpecToken::Str(..) => TokenTag::Str,
            SpecToken::Bytes(..) => TokenTag::Bytes,
            SpecToken::NoneVal(..) => TokenTag::NoneVal,
            SpecToken::SomeVal(..) => TokenTag::SomeVal,
            SpecToken::Array(..) => TokenTag::Array,
            SpecToken::Struct(..) => TokenTag::Struct,
            SpecToken::EmptyArr(..) => TokenTag::EmptyArr,
            SpecToken::Scalar(_, s) => s.spec_tag(),
            SpecToken::Enum(..) => TokenTag::Enum,
            SpecToken::Vec2(..) => TokenTag::Vec2,
            SpecToken::Vec3(..) => TokenTag::Vec3,
            SpecToken::Vec4(..) => TokenTag::Vec4,
        }
    }

    /// The name of a token.
    pub open spec fn name(self) -> Option<Seq<char>> {
        match self {
            SpecToken::Bool(n, ..) => n,
            SpecToken::Str(n, ..) => n,
            SpecToken::Bytes(n, ..) => n,
            SpecToken::NoneVal(n) => n,
            SpecToken::SomeVal(n, ..) => n,
            SpecToken::Array(n, ..) => n,
            SpecToken::Struct(n, ..) => n,
            SpecToken::EmptyArr(n) => n,
            SpecToken::Scalar(n, ..) => n,
            SpecToken::Enum(n, ..) => n,
            SpecToken::Vec2(n, ..) => n,
            SpecToken::Vec3(n, ..) => n,
            SpecToken::Vec4(n, ..) => n,
        }
    }
}

pub open spec fn view_name(n: Name) -> Option<Seq<char>> {
    match n {
        Some(s) => Some(s@),
        None => None,
    }
}

pub open spec fn view_token(t: Token) -> SpecToken
    decreases t,
{
    match t {
        Token::Bool(n, b) => SpecToken::Bool(view_name(n), b),
        Token::Str(n, s) => SpecToken::Str(view_name(n), s@),
        Token::Bytes(n, b) => SpecToken::Bytes(view_name(n), b@),
        Token::NoneVal(n) => SpecToken::NoneVal(view_name(n)),
        Token::SomeVal(n, b) => SpecToken::SomeVal(view_name(n), Box::new(view_token(*b))),
        Token::Array(n, tag, items) => SpecToken::Array(view_name(n), tag, view_tokens(items@)),
        Token::Struct(n, items) => SpecToken::Struct(view_name(n), view_tokens(items@)),
        Token::EmptyArr(n) => SpecToken::EmptyArr(view_name(n)),
        Token::Scalar(n, s) => SpecToken::Scalar(view_name(n), s),
        Token::Enum(n, i, p) => SpecToken::Enum(
            view_name(n),
            i,
            match p {
                Some(b) => Some(Box::new(view_token(*b))),
                None => None,
            },
        ),
        Token::Vec2(n, a, b) => SpecToken::Vec2(
            view_name(n),
            Box::new(view_token(*a)),
            Box::new(view_token(*b)),
        ),
        Token::Vec3(n, a, b, c) => SpecToken::Vec3(
            view_name(n),
            Box::new(view_token(*a)),
            Box::new(view_token(*b)),
            Box::new(view_token(*c)),
        ),
        Token::Vec4(n, a, b, c, d) => SpecToken::Vec4(
            view_name(n),
            Box::new(view_token(*a)),
            Box::new(view_token(*b)),
            Box::new(view_token(*c)),
            Box::new(view_token(*d)),
        ),
    }
}

pub open spec fn view_tokens(s: Seq<Token>) -> Seq<SpecToken>
    decreases s,
{
    if s.len() == 0 {
        Seq::empty()
    } else {
        view_tokens(s.subrange(0, s.len() - 1)).push(view_token(s[s.len() - 1]))
    }
}

impl View for Token {
    type V = SpecToken;

    open spec fn view(&self) -> SpecToken {
        view_token(*self)
    }
}

/// The view of a sequence of tokens keeps its length and views each element.
pub proof fn lemma_view_tokens(s: Seq<Token>)
    ensures
        view_tokens(s).len() == s.len(),
        forall|i: int| 0 <= i < s.len() ==> #[trigger] view_tokens(s)[i] == view_token(s[i]),
    decreases s.len(),
{
    if s.len() > 0 {
        lemma_view_tokens(s.subrange(0, s.len() - 1));
    }
}

/// Appending a token appends its view.
pub proof fn lemma_view_tokens_push(s: Seq<Token>, t: Token)
    ensures
        view_tokens(s.push(t)) == view_tokens(s).push(view_token(t)),
{
    assert(s.push(t).subrange(0, s.len() as int) =~= s);
}

impl Token {
    /// The kind of this token.
    pub fn tag(&self) -> (t: TokenTag)
        ensures
            t == self@.tag(),
    {
        match self {
            Token::Bool(..) => TokenTag::Bool,
            Token::Str(..) => TokenTag::Str,
            Token::Bytes(..) => TokenTag::Bytes,
            Token::NoneVal(..) => TokenTag::NoneVal,
            Token::SomeVal(..) => TokenTag::SomeVal,
            Token::Array(..) => TokenTag::Array,
            Token::Struct(..) => TokenTag::Struct,
            Token::EmptyArr(..) => TokenTag::EmptyArr,
            Token::Scalar(_, s) => s.tag(),
            Token::Enum(..) => TokenTag::Enum,
            Token::Vec2(..) => TokenTag::Vec2,
            Token::Vec3(..) => TokenTag::Vec3,
            Token::Vec4(..) => TokenTag::Vec4,
        }
    }
}

} // verus!
