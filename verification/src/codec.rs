//! The byte layout of every value type that can be stored under a key.

use vstd::prelude::*;
use vstd::slice::slice_to_vec;
use vstd::string::*;
use vstd::utf8::*;
use crate::endian::lemma_u32_from_le_bytes_of;
use crate::endian::lemma_u32_le_bytes_of;
use crate::endian::lemma_u64_from_le_bytes_of;
use crate::endian::lemma_u64_le_bytes_of;
use crate::endian::u32_from_le;
use crate::endian::u32_from_le_bytes;
use crate::endian::u32_le_bytes;
use crate::endian::u32_to_le;
use crate::endian::u64_from_le;
use crate::endian::u64_from_le_bytes;
use crate::endian::u64_le_bytes;
use crate::endian::u64_to_le;

verus! {

/// Why stored bytes are not the encoding of any value of the type asked for.
#[derive(Clone, Copy, Debug, PartialEq, Eq, Structural)]
pub enum DecodeError {
    /// The bytes do not have the length that the type's fixed layout demands.
    WrongLength,
    /// A byte holds a value that the layout does not allow at its place.
    InvalidByte,
    /// A big integer's magnitude starts with a zero byte.
    LeadingZero,
    /// The bytes are not UTF-8.
    InvalidUtf8,
    /// An identifier's first byte names no known kind.
    UnknownKind,
}

/// A value type with a canonical byte layout.
///
/// `enc` and `dec` are the layout as mathematics; `to_bytes` and `from_bytes`
/// compute them. The two proof functions are the laws every layout obeys:
/// decoding an encoding gives the value back, and encoding a decoded value
/// gives the very bytes back.
pub trait ScCodec: Sized {
    /// What a value of the type is, as mathematics.
    type V;

    /// The type's own invariant.
    spec fn wf(&self) -> bool;

    /// The mathematical value of `self`.
    spec fn val(&self) -> Self::V;

    /// The bytes that stand for `v`.
    spec fn enc(v: Self::V) -> Seq<u8>;

    /// The value that `b` stands for, or why it stands for none.
    spec fn dec(b: Seq<u8>) -> Result<Self::V, DecodeError>;

    /// The value read where nothing was written.
    spec fn zero() -> Self::V;

    /// The zero of the type.
    fn default_value() -> (r: Self)
        ensures
            r.wf(),
            r.val() == Self::zero(),
    ;

    /// The bytes that stand for `self`.
    fn to_bytes(&self) -> (r: Vec<u8>)
        requires
            self.wf(),
        ensures
            r@ == Self::enc(self.val()),
    ;

    /// The value that `b` stands for. It fails exactly where `b` is the
    /// encoding of no value, with the reason.
    fn from_bytes(b: &[u8]) -> (r: Result<Self, DecodeError>)
        ensures
            match r {
                Ok(x) => x.wf() && Self::dec(b@) == Ok::<Self::V, DecodeError>(x.val()),
                Err(e) => Self::dec(b@) == Err::<Self::V, DecodeError>(e),
            },
    ;

    /// Decoding the encoding of a valid value gives that value.
    proof fn lemma_decode_encode(&self)
        requires
            self.wf(),
        ensures
            Self::dec(Self::enc(self.val())) == Ok::<Self::V, DecodeError>(self.val()),
    ;

    /// Bytes that decode are the encoding of what they decode to.
    proof fn lemma_encode_decode(b: Seq<u8>)
        requires
            Self::dec(b) is Ok,
        ensures
            Self::enc(Self::dec(b).unwrap()) == b,
    ;
}

impl ScCodec for bool {
    type V = bool;

    open spec fn wf(&self) -> bool {
        true
    }

    open spec fn val(&self) -> bool {
        *self
    }

    open spec fn enc(v: bool) -> Seq<u8> {
        seq![if v { 1u8 } else { 0u8 }]
    }

    open spec fn dec(b: Seq<u8>) -> Result<bool, DecodeError> {
        if b.len() != 1 {
            Err(DecodeError::WrongLength)
        } else if b[0] == 0 {
            Ok(false)
        } else if b[0] == 1 {
            Ok(true)
        } else {
            Err(DecodeError::InvalidByte)
        }
    }

    open spec fn zero() -> bool {
        false
    }

    fn default_value() -> (r: bool) {
        false
    }

    fn to_bytes(&self) -> (r: Vec<u8>) {
        let mut out: Vec<u8> = Vec::new();
        out.push(if *self { 1u8 } else { 0u8 });
        assert(out@ =~= Self::enc(*self));
        out
    }

    fn from_bytes(b: &[u8]) -> (r: Result<bool, DecodeError>) {
        if b.len() != 1 {
            Err(DecodeError::WrongLength)
        } else if b[0] == 0 {
            Ok(false)
        } else if b[0] == 1 {
            Ok(true)
        } else {
            Err(DecodeError::InvalidByte)
        }
    }

    proof fn lemma_decode_encode(&self) {
    }

    proof fn lemma_encode_decode(b: Seq<u8>) {
        assert(Self::enc(Self::dec(b).unwrap()) =~= b);
    }
}

impl ScCodec for u8 {
    type V = u8;

    open spec fn wf(&self) -> bool {
        true
    }

    open spec fn val(&self) -> u8 {
        *self
    }

    open spec fn enc(v: u8) -> Seq<u8> {
        seq![v]
    }

    open spec fn dec(b: Seq<u8>) -> Result<u8, DecodeError> {
        if b.len() != 1 {
            Err(DecodeError::WrongLength)
        } else {
            Ok(b[0])
        }
    }

    open spec fn zero() -> u8 {
        0
    }

    fn default_value() -> (r: u8) {
        0
    }

    fn to_bytes(&self) -> (r: Vec<u8>) {
        let mut out: Vec<u8> = Vec::new();
        out.push(*self);
        assert(out@ =~= Self::enc(*self));
        out
    }

    fn from_bytes(b: &[u8]) -> (r: Result<u8, DecodeError>) {
        if b.len() != 1 {
            Err(DecodeError::WrongLength)
        } else {
            Ok(b[0])
        }
    }

    proof fn lemma_decode_encode(&self) {
    }

    proof fn lemma_encode_decode(b: Seq<u8>) {
        assert(Self::enc(Self::dec(b).unwrap()) =~= b);
    }
}

impl ScCodec for u32 {
    type V = u32;

    open spec fn wf(&self) -> bool {
        true
    }

    open spec fn val(&self) -> u32 {
        *self
    }

    /// Four bytes, the least significant first.
    open spec fn enc(v: u32) -> Seq<u8> {
        u32_le_bytes(v)
    }

    open spec fn dec(b: Seq<u8>) -> Result<u32, DecodeError> {
        if b.len() != 4 {
            Err(DecodeError::WrongLength)
        } else {
            Ok(u32_from_le_bytes(b))
        }
    }

    open spec fn zero() -> u32 {
        0
    }

    fn default_value() -> (r: u32) {
        0
    }

    fn to_bytes(&self) -> (r: Vec<u8>) {
        u32_to_le(*self)
    }

    fn from_bytes(b: &[u8]) -> (r: Result<u32, DecodeError>) {
        if b.len() != 4 {
            Err(DecodeError::WrongLength)
        } else {
            Ok(u32_from_le(b))
        }
    }

    proof fn lemma_decode_encode(&self) {
        lemma_u32_from_le_bytes_of(*self);
    }

    proof fn lemma_encode_decode(b: Seq<u8>) {
        lemma_u32_le_bytes_of(b);
    }
}

impl ScCodec for u64 {
    type V = u64;

    open spec fn wf(&self) -> bool {
        true
    }

    open spec fn val(&self) -> u64 {
        *self
    }

    /// Eight bytes, the least significant first.
    open spec fn enc(v: u64) -> Seq<u8> {
        u64_le_bytes(v)
    }

    open spec fn dec(b: Seq<u8>) -> Result<u64, DecodeError> {
        if b.len() != 8 {
            Err(DecodeError::WrongLength)
        } else {
            Ok(u64_from_le_bytes(b))
        }
    }

    open spec fn zero() -> u64 {
        0
    }

    fn default_value() -> (r: u64) {
        0
    }

    fn to_bytes(&self) -> (r: Vec<u8>) {
        u64_to_le(*self)
    }

    fn from_bytes(b: &[u8]) -> (r: Result<u64, DecodeError>) {
        if b.len() != 8 {
            Err(DecodeError::WrongLength)
        } else {
            Ok(u64_from_le(b))
        }
    }

    proof fn lemma_decode_encode(&self) {
        lemma_u64_from_le_bytes_of(*self);
    }

    proof fn lemma_encode_decode(b: Seq<u8>) {
        lemma_u64_le_bytes_of(b);
    }
}

impl ScCodec for Vec<u8> {
    type V = Seq<u8>;

    open spec fn wf(&self) -> bool {
        true
    }

    open spec fn val(&self) -> Seq<u8> {
        self@
    }

    open spec fn enc(v: Seq<u8>) -> Seq<u8> {
        v
    }

    open spec fn dec(b: Seq<u8>) -> Result<Seq<u8>, DecodeError> {
        Ok(b)
    }

    open spec fn zero() -> Seq<u8> {
        Seq::empty()
    }

    fn default_value() -> (r: Vec<u8>) {
        Vec::new()
    }

    fn to_bytes(&self) -> (r: Vec<u8>) {
        slice_to_vec(self.as_slice())
    }

    fn from_bytes(b: &[u8]) -> (r: Result<Vec<u8>, DecodeError>) {
        Ok(slice_to_vec(b))
    }

    proof fn lemma_decode_encode(&self) {
    }

    proof fn lemma_encode_decode(b: Seq<u8>) {
    }
}

/// `String::from_utf8` of std: a string exactly when the bytes are UTF-8, and
/// then the string whose characters those bytes encode.
#[verifier::external_body]
fn string_from_utf8(bytes: Vec<u8>) -> (r: Option<String>)
    ensures
        r is Some <==> valid_utf8(bytes@),
        r is Some ==> r.unwrap()@ == decode_utf8(bytes@),
{
    String::from_utf8(bytes).ok()
}

impl ScCodec for String {
    type V = Seq<char>;

    open spec fn wf(&self) -> bool {
        true
    }

    open spec fn val(&self) -> Seq<char> {
        self@
    }

    /// The UTF-8 bytes of the characters, with nothing before or after them.
    open spec fn enc(v: Seq<char>) -> Seq<u8> {
        encode_utf8(v)
    }

    open spec fn dec(b: Seq<u8>) -> Result<Seq<char>, DecodeError> {
        if valid_utf8(b) {
            Ok(decode_utf8(b))
        } else {
            Err(DecodeError::InvalidUtf8)
        }
    }

    open spec fn zero() -> Seq<char> {
        Seq::empty()
    }

    fn default_value() -> (r: String) {
        String::new()
    }

    fn to_bytes(&self) -> (r: Vec<u8>) {
        self.as_str().as_bytes_vec()
    }

    fn from_bytes(b: &[u8]) -> (r: Result<String, DecodeError>) {
        match string_from_utf8(slice_to_vec(b)) {
            Some(s) => Ok(s),
            None => Err(DecodeError::InvalidUtf8),
        }
    }

    proof fn lemma_decode_encode(&self) {
        encode_utf8_valid_utf8(self@);
        encode_utf8_decode_utf8(self@);
    }

    proof fn lemma_encode_decode(b: Seq<u8>) {
        decode_utf8_encode_utf8(b);
    }
}

} // verus!
