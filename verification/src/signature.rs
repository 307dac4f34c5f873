//! Function signatures and their descriptor byte format.
//!
//! A descriptor is a stream of tag bytes. A tag stands alone, or is followed
//! by one nested descriptor, or (the function tag) by a shim index, a
//! parameter count, that many parameter descriptors, the return descriptor
//! and the inner return descriptor. [`parse_type`] is the format's
//! definition; [`TypeDesc::decode`] is proved to compute it, and
//! [`encode_type`] is proved to be inverted by it.

use crate::error::Error;
use vstd::prelude::*;
use vstd::slice::*;
use vstd::string::*;

verus! {

/// The tag that introduces a function descriptor.
pub const TAG_FUNCTION: u8 = 11;

/// The tag of a shared reference.
pub const TAG_REF: u8 = 15;

/// The tag of a mutable reference.
pub const TAG_REF_MUT: u8 = 16;

/// The tag of a slice.
pub const TAG_SLICE: u8 = 18;

/// The tag of a vector.
pub const TAG_VECTOR: u8 = 19;

/// The tag of an optional value.
pub const TAG_OPTION: u8 = 25;

/// A type descriptor.
#[derive(Debug, PartialEq, Eq)]
pub enum TypeDesc {
    I8,
    U8,
    I16,
    U16,
    I32,
    U32,
    I64,
    U64,
    F32,
    F64,
    Boolean,
    Function(Box<FunctionType>),
    _Closure,
    CachedString,
    String,
    Ref(Box<TypeDesc>),
    RefMut(Box<TypeDesc>),
    LongRef,
    Slice(Box<TypeDesc>),
    Vector(Box<TypeDesc>),
    Externref,
    NamedExternref,
    Enum,
    RustStruct,
    Char,
    Option(Box<TypeDesc>),
    Result,
    Unit,
    ClampedU8,
}

/// The signature of a function: its parameters, its return type, the type
/// that the return type wraps, and the shim index of the calling convention.
#[derive(Debug, PartialEq, Eq)]
pub struct FunctionType {
    pub params: Vec<TypeDesc>,
    pub shim_idx: u8,
    pub ret: TypeDesc,
    pub inner_ret: Option<TypeDesc>,
}

/// The mathematical form of a type descriptor: a tree of tags.
pub enum TypeModel {
    /// A descriptor without payload, by its tag.
    Plain(u8),
    /// A descriptor that wraps one other descriptor, by its tag.
    Nested(u8, Box<TypeModel>),
    /// A function descriptor.
    Function(Box<SignatureModel>),
}

/// The mathematical form of a signature.
pub struct SignatureModel {
    pub params: Seq<TypeModel>,
    pub shim_idx: u8,
    pub ret: TypeModel,
    pub inner_ret: Option<TypeModel>,
}

/// Why a byte stream is no descriptor.
pub enum DecodeFailure {
    /// The stream ends inside a descriptor.
    Truncated,
    /// The stream holds this tag, which no supported descriptor starts with.
    Unsupported(u8),
}

/// Whether `tag` is a descriptor without payload.
pub open spec fn is_plain_tag(tag: u8) -> bool {
    tag <= 10 || tag == 14 || tag == 24 || tag == 27
}

/// Whether `tag` is followed by exactly one nested descriptor.
pub open spec fn is_nesting_tag(tag: u8) -> bool {
    tag == TAG_REF || tag == TAG_REF_MUT || tag == TAG_SLICE || tag == TAG_VECTOR || tag
        == TAG_OPTION
}

/// The symbolic name under which an unsupported tag is reported.
pub open spec fn unsupported_name(tag: u8) -> Seq<char> {
    if tag == 12 {
        "closure"@
    } else if tag == 13 {
        "cached_string"@
    } else if tag == 17 {
        "long_ref"@
    } else if tag == 20 {
        "extern_ref"@
    } else if tag == 21 {
        "named_extern_ref"@
    } else if tag == 22 {
        "enum"@
    } else if tag == 23 {
        "struct"@
    } else if tag == 26 {
        "result"@
    } else if tag == 28 {
        "clamped"@
    } else {
        "undefined"@
    }
}

/// The descriptor at the head of `s`, with the bytes that follow it.
pub open spec fn parse_type(s: Seq<u8>) -> Result<(TypeModel, Seq<u8>), DecodeFailure>
    decreases s.len(), 0nat,
{
    if s.len() == 0 {
        Err(DecodeFailure::Truncated)
    } else if s[0] == TAG_FUNCTION {
        match parse_signature(s.skip(1)) {
            Ok((f, rest)) => Ok((TypeModel::Function(Box::new(f)), rest)),
            Err(e) => Err(e),
        }
    } else if is_nesting_tag(s[0]) {
        match parse_type(s.skip(1)) {
            Ok((t, rest)) => Ok((TypeModel::Nested(s[0], Box::new(t)), rest)),
            Err(e) => Err(e),
        }
    } else if is_plain_tag(s[0]) {
        Ok((TypeModel::Plain(s[0]), s.skip(1)))
    } else {
        Err(DecodeFailure::Unsupported(s[0]))
    }
}

/// The payload of a function descriptor at the head of `s`: shim index,
/// parameter count, the parameters, the return type and the inner return
/// type, with the bytes that follow.
///
/// The length tests before the second and third nested descriptor never
/// fail (a descriptor takes at least one byte); they are there to show that
/// the definition terminates.
pub open spec fn parse_signature(s: Seq<u8>) -> Result<(SignatureModel, Seq<u8>), DecodeFailure>
    decreases s.len(), 0nat,
{
    if s.len() < 2 {
        Err(DecodeFailure::Truncated)
    } else {
        match parse_params(s.skip(2), s[1] as nat) {
            Err(e) => Err(e),
            Ok((params, after_params)) => if after_params.len() >= s.len() {
                Err(DecodeFailure::Truncated)
            } else {
                match parse_type(after_params) {
                    Err(e) => Err(e),
                    Ok((ret, after_ret)) => if after_ret.len() >= s.len() {
                        Err(DecodeFailure::Truncated)
                    } else {
                        match parse_type(after_ret) {
                            Err(e) => Err(e),
                            Ok((inner, rest)) => Ok(
                                (
                                    SignatureModel {
                                        params,
                                        shim_idx: s[0],
                                        ret,
                                        inner_ret: Some(inner),
                                    },
                                    rest,
                                ),
                            ),
                        }
                    },
                }
            },
        }
    }
}

/// The `count` descriptors at the head of `s`, in order, with the bytes that
/// follow them.
pub open spec fn parse_params(s: Seq<u8>, count: nat) -> Result<
    (Seq<TypeModel>, Seq<u8>),
    DecodeFailure,
>
    decreases s.len(), count + 1,
{
    if count == 0 {
        Ok((Seq::empty(), s))
    } else {
        match parse_type(s) {
            Err(e) => Err(e),
            Ok((first, rest)) => if rest.len() >= s.len() {
                Err(DecodeFailure::Truncated)
            } else {
                match parse_params(rest, (count - 1) as nat) {
                    Err(e) => Err(e),
                    Ok((others, end)) => Ok((seq![first] + others, end)),
                }
            },
        }
    }
}

impl TypeDesc {
    /// The tag byte that introduces this descriptor.
    pub open spec fn tag(self) -> u8 {
        match self {
            TypeDesc::I8 => 0,
            TypeDesc::U8 => 1,
            TypeDesc::I16 => 2,
            TypeDesc::U16 => 3,
            TypeDesc::I32 => 4,
            TypeDesc::U32 => 5,
            TypeDesc::I64 => 6,
            TypeDesc::U64 => 7,
            TypeDesc::F32 => 8,
            TypeDesc::F64 => 9,
            TypeDesc::Boolean => 10,
            TypeDesc::Function(_) => 11,
            TypeDesc::_Closure => 12,
            TypeDesc::CachedString => 13,
            TypeDesc::String => 14,
            TypeDesc::Ref(_) => 15,
            TypeDesc::RefMut(_) => 16,
            TypeDesc::LongRef => 17,
            TypeDesc::Slice(_) => 18,
            TypeDesc::Vector(_) => 19,
            TypeDesc::Externref => 20,
            TypeDesc::NamedExternref => 21,
            TypeDesc::Enum => 22,
            TypeDesc::RustStruct => 23,
            TypeDesc::Char => 24,
            TypeDesc::Option(_) => 25,
            TypeDesc::Result => 26,
            TypeDesc::Unit => 27,
            TypeDesc::ClampedU8 => 28,
        }
    }

    /// The mathematical form of this descriptor.
    pub open spec fn model(self) -> TypeModel
        decreases self,
    {
        match self {
            TypeDesc::Function(f) => TypeModel::Function(Box::new(f.model())),
            TypeDesc::Ref(t) => TypeModel::Nested(TAG_REF, Box::new(t.model())),
            TypeDesc::RefMut(t) => TypeModel::Nested(TAG_REF_MUT, Box::new(t.model())),
            TypeDesc::Slice(t) => TypeModel::Nested(TAG_SLICE, Box::new(t.model())),
            TypeDesc::Vector(t) => TypeModel::Nested(TAG_VECTOR, Box::new(t.model())),
            TypeDesc::Option(t) => TypeModel::Nested(TAG_OPTION, Box::new(t.model())),
            other => TypeModel::Plain(other.tag()),
        }
    }
}

impl FunctionType {
    /// The mathematical form of this signature.
    pub open spec fn model(self) -> SignatureModel
        decreases self,
    {
        SignatureModel {
            params: Seq::new(
                self.params.len() as nat,
                |i: int|
                    if 0 <= i < self.params.len() {
                        self.params[i].model()
                    } else {
                        TypeModel::Plain(0)
                    },
            ),
            shim_idx: self.shim_idx,
            ret: self.ret.model(),
            inner_ret: match self.inner_ret {
                Some(t) => Some(t.model()),
                None => None,
            },
        }
    }
}

impl View for TypeDesc {
    type V = TypeModel;

    open spec fn view(&self) -> TypeModel {
        self.model()
    }
}

impl View for FunctionType {
    type V = SignatureModel;

    open spec fn view(&self) -> SignatureModel {
        self.model()
    }
}

/// The mathematical forms of a list of descriptors.
pub open spec fn models_of(list: Seq<TypeDesc>) -> Seq<TypeModel> {
    Seq::new(list.len(), |i: int| list[i].model())
}

/// Whether the error `e` reports the failure `failure`.
pub open spec fn reports(e: Error, failure: DecodeFailure) -> bool {
    match failure {
        DecodeFailure::Truncated => e is CorruptFunctionDesc,
        DecodeFailure::Unsupported(tag) => e matches Error::UnsupportedType(name) && name@
            == unsupported_name(tag),
    }
}

/// Whether a decoder that was given the bytes of which `parsed` is the
/// meaning, returned `decoded` and left `rest` unread, did right.
pub open spec fn decoded_type(
    parsed: Result<(TypeModel, Seq<u8>), DecodeFailure>,
    decoded: Result<TypeDesc, Error>,
    rest: Seq<u8>,
) -> bool {
    match parsed {
        Ok((model, remaining)) => decoded matches Ok(t) && t@ == model && rest == remaining,
        Err(failure) => decoded matches Err(e) && reports(e, failure),
    }
}

/// As [`decoded_type`], for the payload of a function descriptor.
pub open spec fn decoded_signature(
    parsed: Result<(SignatureModel, Seq<u8>), DecodeFailure>,
    decoded: Result<FunctionType, Error>,
    rest: Seq<u8>,
) -> bool {
    match parsed {
        Ok((model, remaining)) => decoded matches Ok(f) && f@ == model && rest == remaining,
        Err(failure) => decoded matches Err(e) && reports(e, failure),
    }
}

/// What `parse_params` yields once the descriptors in `done` have been read
/// and `later` is the parse of those that follow.
pub open spec fn after_reading(
    done: Seq<TypeModel>,
    later: Result<(Seq<TypeModel>, Seq<u8>), DecodeFailure>,
) -> Result<(Seq<TypeModel>, Seq<u8>), DecodeFailure> {
    match later {
        Ok((others, end)) => Ok((done + others, end)),
        Err(e) => Err(e),
    }
}

/// A descriptor takes at least one byte.
pub proof fn lemma_parse_type_consumes(s: Seq<u8>)
    ensures
        parse_type(s) matches Ok((_, rest)) ==> rest.len() < s.len(),
    decreases s.len(), 0nat,
{
    if s.len() > 0 {
        if s[0] == TAG_FUNCTION {
            lemma_parse_signature_consumes(s.skip(1));
        } else if is_nesting_tag(s[0]) {
            lemma_parse_type_consumes(s.skip(1));
        }
    }
}

/// The payload of a function descriptor takes at least four bytes.
pub proof fn lemma_parse_signature_consumes(s: Seq<u8>)
    ensures
        parse_signature(s) matches Ok((_, rest)) ==> rest.len() + 4 <= s.len(),
    decreases s.len(), 0nat,
{
    if s.len() >= 2 {
        lemma_parse_params_consumes(s.skip(2), s[1] as nat);
        match parse_params(s.skip(2), s[1] as nat) {
            Err(_) => {},
            Ok((_, after_params)) => {
                if after_params.len() < s.len() {
                    lemma_parse_type_consumes(after_params);
                    match parse_type(after_params) {
                        Err(_) => {},
                        Ok((_, after_ret)) => {
                            if after_ret.len() < s.len() {
                                lemma_parse_type_consumes(after_ret);
                            }
                        },
                    }
                }
            },
        }
    }
}

/// A list of `count` descriptors takes at least `count` bytes.
pub proof fn lemma_parse_params_consumes(s: Seq<u8>, count: nat)
    ensures
        parse_params(s, count) matches Ok((params, rest)) ==> rest.len() + count <= s.len()
            && params.len() == count,
    decreases s.len(), count + 1,
{
    if count > 0 {
        lemma_parse_type_consumes(s);
        match parse_type(s) {
            Err(_) => {},
            Ok((_, rest)) => {
                lemma_parse_params_consumes(rest, (count - 1) as nat);
            },
        }
    }
}

/// Before any descriptor of a list has been read, what is left is the list.
proof fn lemma_nothing_read(later: Result<(Seq<TypeModel>, Seq<u8>), DecodeFailure>)
    ensures
        after_reading(Seq::empty(), later) == later,
{
    match later {
        Ok((others, end)) => {
            assert(Seq::<TypeModel>::empty() + others =~= others);
        },
        Err(_) => {},
    }
}

/// Reading one more descriptor of a list: the parse of the whole list is
/// the parse of what is left, put behind what has been read.
proof fn lemma_read_one_more(done: Seq<TypeModel>, s: Seq<u8>, left: nat)
    requires
        left > 0,
    ensures
        match parse_type(s) {
            Ok((t, rest)) => after_reading(done, parse_params(s, left)) == after_reading(
                done.push(t),
                parse_params(rest, (left - 1) as nat),
            ),
            Err(e) => after_reading(done, parse_params(s, left)) == Err::<
                (Seq<TypeModel>, Seq<u8>),
                DecodeFailure,
            >(e),
        },
{
    lemma_parse_type_consumes(s);
    match parse_type(s) {
        Ok((t, rest)) => {
            match parse_params(rest, (left - 1) as nat) {
                Ok((others, end)) => {
                    assert(done + (seq![t] + others) =~= done.push(t) + others);
                },
                Err(_) => {},
            }
        },
        Err(_) => {},
    }
}

impl TypeDesc {
    /// Reads the descriptor at the head of `bytes` and advances `bytes` past
    /// it.
    ///
    /// The result is the one that [`parse_type`] defines. A stream that ends
    /// inside a descriptor gives `CorruptFunctionDesc`; a tag that starts no
    /// supported descriptor gives `UnsupportedType` with the tag's symbolic
    /// name. After an error, how far `bytes` has advanced is left open.
    pub fn decode(bytes: &mut &[u8]) -> (decoded: Result<TypeDesc, Error>)
        ensures
            decoded_type(parse_type((*old(bytes))@), decoded, (*final(bytes))@),
        decreases (*old(bytes))@.len(),
    {
        let ghost input = (*bytes)@;
        if bytes.len() == 0 {
            return Err(Error::CorruptFunctionDesc);
        }
        let byte = bytes[0];
        *bytes = slice_subrange(*bytes, 1, bytes.len());
        assert((*bytes)@ == input.skip(1));
        match byte {
            0 => Ok(TypeDesc::I8),
            1 => Ok(TypeDesc::U8),
            2 => Ok(TypeDesc::I16),
            3 => Ok(TypeDesc::U16),
            4 => Ok(TypeDesc::I32),
            5 => Ok(TypeDesc::U32),
            6 => Ok(TypeDesc::I64),
            7 => Ok(TypeDesc::U64),
            8 => Ok(TypeDesc::F32),
            9 => Ok(TypeDesc::F64),
            10 => Ok(TypeDesc::Boolean),
            11 => match FunctionType::decode(bytes) {
                Ok(f) => Ok(TypeDesc::Function(Box::new(f))),
                Err(e) => Err(e),
            },
            12 => Err(Error::UnsupportedType(String::from_str("closure"))),
            13 => Err(Error::UnsupportedType(String::from_str("cached_string"))),
            14 => Ok(TypeDesc::String),
            15 => match TypeDesc::decode(bytes) {
                Ok(t) => Ok(TypeDesc::Ref(Box::new(t))),
                Err(e) => Err(e),
            },
            16 => match TypeDesc::decode(bytes) {
                Ok(t) => Ok(TypeDesc::RefMut(Box::new(t))),
                Err(e) => Err(e),
            },
            17 => Err(Error::UnsupportedType(String::from_str("long_ref"))),
            18 => match TypeDesc::decode(bytes) {
                Ok(t) => Ok(TypeDesc::Slice(Box::new(t))),
                Err(e) => Err(e),
            },
            19 => match TypeDesc::decode(bytes) {
                Ok(t) => Ok(TypeDesc::Vector(Box::new(t))),
                Err(e) => Err(e),
            },
            20 => Err(Error::UnsupportedType(String::from_str("extern_ref"))),
            21 => Err(Error::UnsupportedType(String::from_str("named_extern_ref"))),
            22 => Err(Error::UnsupportedType(String::from_str("enum"))),
            23 => Err(Error::UnsupportedType(String::from_str("struct"))),
            24 => Ok(TypeDesc::Char),
            25 => match TypeDesc::decode(bytes) {
                Ok(t) => Ok(TypeDesc::Option(Box::new(t))),
                Err(e) => Err(e),
            },
            26 => Err(Error::UnsupportedType(String::from_str("result"))),
            27 => Ok(TypeDesc::Unit),
            28 => Err(Error::UnsupportedType(String::from_str("clamped"))),
            _ => Err(Error::UnsupportedType(String::from_str("undefined"))),
        }
    }
}

impl FunctionType {
    /// Reads the payload of a function descriptor at the head of `bytes`
    /// (what follows the function tag) and advances `bytes` past it.
    ///
    /// The result is the one that [`parse_signature`] defines; errors are
    /// reported as by [`TypeDesc::decode`].
    pub fn decode(bytes: &mut &[u8]) -> (decoded: Result<FunctionType, Error>)
        ensures
            decoded_signature(parse_signature((*old(bytes))@), decoded, (*final(bytes))@),
        decreases (*old(bytes))@.len(),
    {
        let ghost input = (*bytes)@;
        if bytes.len() < 2 {
            return Err(Error::CorruptFunctionDesc);
        }
        let shim_idx = bytes[0];
        let nparam = bytes[1];
        *bytes = slice_subrange(*bytes, 2, bytes.len());
        let ghost start = (*bytes)@;
        assert(start == input.skip(2));
        let mut params: Vec<TypeDesc> = Vec::new();
        let mut read: u8 = 0;
        proof {
            lemma_nothing_read(parse_params(start, nparam as nat));
            assert(models_of(params@) =~= Seq::<TypeModel>::empty());
        }
        while read < nparam
            invariant
                read <= nparam,
                params.len() == read,
                (*bytes)@.len() <= start.len(),
                input == (*old(bytes))@,
                input.len() >= 2,
                start == input.skip(2),
                nparam == input[1],
                parse_params(start, nparam as nat) == after_reading(
                    models_of(params@),
                    parse_params((*bytes)@, (nparam - read) as nat),
                ),
            decreases nparam - read,
        {
            let ghost before = (*bytes)@;
            let ghost done = models_of(params@);
            proof {
                lemma_read_one_more(done, before, (nparam - read) as nat);
                lemma_parse_type_consumes(before);
            }
            match TypeDesc::decode(bytes) {
                Ok(t) => {
                    params.push(t);
                    assert(models_of(params@) =~= done.push(t@));
                },
                Err(e) => {
                    return Err(e);
                },
            }
            read += 1;
        }
        let ghost after_params = (*bytes)@;
        assert(parse_params(start, nparam as nat) == Ok::<
            (Seq<TypeModel>, Seq<u8>),
            DecodeFailure,
        >((models_of(params@), after_params))) by {
            assert(models_of(params@) + Seq::<TypeModel>::empty() =~= models_of(params@));
        }
        proof {
            lemma_parse_type_consumes(after_params);
        }
        let ret = match TypeDesc::decode(bytes) {
            Ok(t) => t,
            Err(e) => {
                return Err(e);
            },
        };
        proof {
            lemma_parse_type_consumes((*bytes)@);
        }
        let inner = match TypeDesc::decode(bytes) {
            Ok(t) => t,
            Err(e) => {
                return Err(e);
            },
        };
        let decoded = FunctionType { params, shim_idx, ret, inner_ret: Some(inner) };
        assert(decoded@.params =~= models_of(decoded.params@));
        Ok(decoded)
    }

    /// The number of parameters.
    pub fn arity(&self) -> (n: usize)
        ensures
            n == self@.params.len(),
    {
        self.params.len()
    }
}

/// Whether a descriptor is one that the byte format can express: every tag
/// is a supported one, a function has at most 255 parameters and carries an
/// inner return type.
pub open spec fn valid_type(t: TypeModel) -> bool
    decreases t,
{
    match t {
        TypeModel::Plain(tag) => is_plain_tag(tag),
        TypeModel::Nested(tag, inner) => is_nesting_tag(tag) && valid_type(*inner),
        TypeModel::Function(f) => valid_signature(*f),
    }
}

/// Whether a signature is one that the byte format can express.
pub open spec fn valid_signature(f: SignatureModel) -> bool
    decreases f,
{
    &&& f.params.len() <= 255
    &&& forall|i: int| 0 <= i < f.params.len() ==> valid_type(#[trigger] f.params[i])
    &&& valid_type(f.ret)
    &&& f.inner_ret matches Some(inner) && valid_type(inner)
}

/// The bytes that stand for a descriptor.
pub open spec fn encode_type(t: TypeModel) -> Seq<u8>
    decreases t,
{
    match t {
        TypeModel::Plain(tag) => seq![tag],
        TypeModel::Nested(tag, inner) => seq![tag] + encode_type(*inner),
        TypeModel::Function(f) => seq![TAG_FUNCTION] + encode_signature(*f),
    }
}

/// The bytes that stand for a signature, behind the function tag.
pub open spec fn encode_signature(f: SignatureModel) -> Seq<u8>
    decreases f,
{
    seq![f.shim_idx, f.params.len() as u8] + encode_params(f.params) + encode_type(f.ret) + (
    match f.inner_ret {
        Some(inner) => encode_type(inner),
        None => Seq::empty(),
    })
}

/// The bytes that stand for a list of descriptors, one after the other.
pub open spec fn encode_params(list: Seq<TypeModel>) -> Seq<u8>
    decreases list,
{
    if list.len() == 0 {
        Seq::empty()
    } else {
        encode_type(list[0]) + encode_params(list.skip(1))
    }
}

/// Decoding inverts encoding: the bytes of a valid descriptor, followed by
/// anything, parse as that descriptor and leave what follows.
pub proof fn lemma_decode_inverts_encode(t: TypeModel, rest: Seq<u8>)
    requires
        valid_type(t),
    ensures
        parse_type(encode_type(t) + rest) == Ok::<(TypeModel, Seq<u8>), DecodeFailure>((t, rest)),
    decreases t,
{
    let s = encode_type(t) + rest;
    match t {
        TypeModel::Plain(tag) => {
            assert(s.skip(1) =~= rest);
        },
        TypeModel::Nested(tag, inner) => {
            lemma_decode_inverts_encode(*inner, rest);
            assert(s.skip(1) =~= encode_type(*inner) + rest);
        },
        TypeModel::Function(f) => {
            lemma_signature_round_trip(*f, rest);
            assert(s.skip(1) =~= encode_signature(*f) + rest);
        },
    }
}

/// As [`lemma_decode_inverts_encode`], for the payload of a function
/// descriptor.
pub proof fn lemma_signature_round_trip(f: SignatureModel, rest: Seq<u8>)
    requires
        valid_signature(f),
    ensures
        parse_signature(encode_signature(f) + rest) == Ok::<
            (SignatureModel, Seq<u8>),
            DecodeFailure,
        >((f, rest)),
    decreases f,
{
    let inner = f.inner_ret->Some_0;
    let s = encode_signature(f) + rest;
    let after_ret = encode_type(inner) + rest;
    let after_params = encode_type(f.ret) + after_ret;
    assert(s.skip(2) =~= encode_params(f.params) + after_params);
    assert(s[0] == f.shim_idx);
    assert(s[1] == f.params.len() as u8);
    lemma_params_round_trip(f.params, after_params);
    lemma_decode_inverts_encode(f.ret, after_ret);
    lemma_decode_inverts_encode(inner, rest);
}

/// As [`lemma_decode_inverts_encode`], for a list of descriptors.
pub proof fn lemma_params_round_trip(list: Seq<TypeModel>, rest: Seq<u8>)
    requires
        forall|i: int| 0 <= i < list.len() ==> valid_type(#[trigger] list[i]),
    ensures
        parse_params(encode_params(list) + rest, list.len()) == Ok::<
            (Seq<TypeModel>, Seq<u8>),
            DecodeFailure,
        >((list, rest)),
    decreases list,
{
    if list.len() > 0 {
        let tail = list.skip(1);
        let after_first = encode_params(tail) + rest;
        assert(encode_params(list) + rest =~= encode_type(list[0]) + after_first);
        lemma_decode_inverts_encode(list[0], after_first);
        assert forall|i: int| 0 <= i < tail.len() implies valid_type(#[trigger] tail[i]) by {
            assert(tail[i] == list[i + 1]);
        }
        lemma_params_round_trip(tail, rest);
        assert(seq![list[0]] + tail =~= list);
    } else {
        assert(encode_params(list) + rest =~= rest);
        assert(list =~= Seq::<TypeModel>::empty());
    }
}

/// Encoding inverts decoding: bytes that parse as a descriptor begin with
/// that descriptor's encoding, and the descriptor is a valid one.
pub proof fn lemma_encode_inverts_decode(s: Seq<u8>)
    ensures
        parse_type(s) matches Ok((t, rest)) ==> valid_type(t) && s == encode_type(t) + rest,
    decreases s.len(), 0nat,
{
    if s.len() > 0 {
        if s[0] == TAG_FUNCTION {
            lemma_signature_parse_is_encoding(s.skip(1));
            match parse_signature(s.skip(1)) {
                Ok((f, rest)) => {
                    assert(s =~= seq![TAG_FUNCTION] + (encode_signature(f) + rest));
                    assert(s =~= seq![TAG_FUNCTION] + encode_signature(f) + rest);
                },
                Err(_) => {},
            }
        } else if is_nesting_tag(s[0]) {
            lemma_encode_inverts_decode(s.skip(1));
            match parse_type(s.skip(1)) {
                Ok((t, rest)) => {
                    assert(s =~= seq![s[0]] + (encode_type(t) + rest));
                    assert(s =~= seq![s[0]] + encode_type(t) + rest);
                },
                Err(_) => {},
            }
        } else if is_plain_tag(s[0]) {
            assert(s =~= seq![s[0]] + s.skip(1));
        }
    }
}

/// As [`lemma_encode_inverts_decode`], for the payload of a function
/// descriptor.
pub proof fn lemma_signature_parse_is_encoding(s: Seq<u8>)
    ensures
        parse_signature(s) matches Ok((f, rest)) ==> valid_signature(f) && s == encode_signature(
            f,
        ) + rest,
    decreases s.len(), 0nat,
{
    if s.len() >= 2 {
        lemma_params_parse_is_encoding(s.skip(2), s[1] as nat);
        match parse_params(s.skip(2), s[1] as nat) {
            Err(_) => {},
            Ok((params, after_params)) => {
                if after_params.len() < s.len() {
                    lemma_encode_inverts_decode(after_params);
                    match parse_type(after_params) {
                        Err(_) => {},
                        Ok((ret, after_ret)) => {
                            if after_ret.len() < s.len() {
                                lemma_encode_inverts_decode(after_ret);
                                match parse_type(after_ret) {
                                    Err(_) => {},
                                    Ok((inner, rest)) => {
                                        let f = SignatureModel {
                                            params,
                                            shim_idx: s[0],
                                            ret,
                                            inner_ret: Some(inner),
                                        };
                                        assert(s =~= seq![s[0], s[1]] + s.skip(2));
                                        assert(s.skip(2) == encode_params(params) + after_params);
                                        assert(after_params == encode_type(ret) + after_ret);
                                        assert(after_ret == encode_type(inner) + rest);
                                        assert(s =~= seq![s[0], s[1]] + encode_params(params)
                                            + encode_type(ret) + encode_type(inner) + rest);
                                    },
                                }
                            }
                        },
                    }
                }
            },
        }
    }
}

/// As [`lemma_encode_inverts_decode`], for a list of descriptors.
pub proof fn lemma_params_parse_is_encoding(s: Seq<u8>, count: nat)
    ensures
        parse_params(s, count) matches Ok((list, rest)) ==> {
            &&& list.len() == count
            &&& forall|i: int| 0 <= i < list.len() ==> valid_type(#[trigger] list[i])
            &&& s == encode_params(list) + rest
        },
    decreases s.len(), count + 1,
{
    if count > 0 {
        lemma_encode_inverts_decode(s);
        match parse_type(s) {
            Err(_) => {},
            Ok((first, after_first)) => {
                if after_first.len() < s.len() {
                    lemma_params_parse_is_encoding(after_first, (count - 1) as nat);
                    match parse_params(after_first, (count - 1) as nat) {
                        Err(_) => {},
                        Ok((others, rest)) => {
                            let list = seq![first] + others;
                            assert(list.skip(1) =~= others);
                            assert(list[0] == first);
                            assert forall|i: int| 0 <= i < list.len() implies valid_type(
                                #[trigger] list[i],
                            ) by {
                                if i > 0 {
                                    assert(list[i] == others[i - 1]);
                                }
                            }
                            assert(s =~= encode_type(first) + encode_params(others) + rest);
                        },
                    }
                }
            },
        }
    } else {
        assert(s =~= encode_params(Seq::<TypeModel>::empty()) + s);
    }
}

} // verus!
