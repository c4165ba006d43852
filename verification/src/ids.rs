//! The identifiers of agents, of non-fungible tokens and of native tokens.
//!
//! All three are stored as one record: a byte that names the kind of the
//! identity, and then the payload, whose length the kind fixes.

use vstd::prelude::*;
use vstd::slice::slice_to_vec;
use crate::codec::DecodeError;
use crate::codec::ScCodec;

verus! {

/// The tag of the address-like kind.
pub const TAG_ADDRESS: u8 = 1;

/// The tag of the object-like kind.
pub const TAG_OBJECT: u8 = 2;

/// The payload length of the address-like kind.
pub const ADDRESS_LEN: usize = 20;

/// The payload length of the object-like kind.
pub const OBJECT_LEN: usize = 32;

/// The kind of identity that an identifier holds.
#[derive(Clone, Copy, Debug, PartialEq, Eq, Structural)]
pub enum IdKind {
    /// An address: 20 bytes.
    Address,
    /// An object: 32 bytes.
    Object,
}

/// The byte that names a kind.
pub open spec fn tag_of(kind: IdKind) -> u8 {
    match kind {
        IdKind::Address => TAG_ADDRESS,
        IdKind::Object => TAG_OBJECT,
    }
}

/// The kind that a byte names, if any.
pub open spec fn kind_of_tag(tag: u8) -> Option<IdKind> {
    if tag == TAG_ADDRESS {
        Some(IdKind::Address)
    } else if tag == TAG_OBJECT {
        Some(IdKind::Object)
    } else {
        None
    }
}

/// The length of the payload of a kind.
pub open spec fn payload_len_of(kind: IdKind) -> nat {
    match kind {
        IdKind::Address => ADDRESS_LEN as nat,
        IdKind::Object => OBJECT_LEN as nat,
    }
}

/// The record of an identity: the tag of its kind, then its payload.
pub open spec fn record_bytes(id: (IdKind, Seq<u8>)) -> Seq<u8> {
    seq![tag_of(id.0)] + id.1
}

/// The identity that a record holds. The first byte has to name a kind, and
/// the rest has to be exactly as long as a payload of that kind.
pub open spec fn record_parse(b: Seq<u8>) -> Result<(IdKind, Seq<u8>), DecodeError> {
    if b.len() == 0 {
        Err(DecodeError::WrongLength)
    } else {
        match kind_of_tag(b[0]) {
            None => Err(DecodeError::UnknownKind),
            Some(kind) => if b.len() == 1 + payload_len_of(kind) {
                Ok((kind, b.skip(1)))
            } else {
                Err(DecodeError::WrongLength)
            },
        }
    }
}

/// A record parses to the identity it was built from.
pub proof fn lemma_record_parse_bytes(id: (IdKind, Seq<u8>))
    requires
        id.1.len() == payload_len_of(id.0),
    ensures
        record_parse(record_bytes(id)) == Ok::<(IdKind, Seq<u8>), DecodeError>(id),
{
    assert(record_bytes(id).skip(1) =~= id.1);
}

/// A record that parses is built from the identity it parses to.
pub proof fn lemma_record_bytes_parse(b: Seq<u8>)
    requires
        record_parse(b) is Ok,
    ensures
        record_bytes(record_parse(b).unwrap()) == b,
        record_parse(b).unwrap().1.len() == payload_len_of(record_parse(b).unwrap().0),
{
    assert(record_bytes(record_parse(b).unwrap()) =~= b);
}

/// A record of any length but 21 and 33 is refused: a payload that is too
/// short or too long never yields an identity.
pub proof fn lemma_wrong_length_refused(b: Seq<u8>)
    requires
        b.len() != 1 + ADDRESS_LEN,
        b.len() != 1 + OBJECT_LEN,
    ensures
        record_parse(b) is Err,
{
}

impl IdKind {
    /// The byte that names the kind.
    pub fn tag(self) -> (r: u8)
        ensures
            r == tag_of(self),
    {
        match self {
            IdKind::Address => TAG_ADDRESS,
            IdKind::Object => TAG_OBJECT,
        }
    }

    /// The kind that `tag` names, if any.
    pub fn from_tag(tag: u8) -> (r: Option<IdKind>)
        ensures
            r == kind_of_tag(tag),
    {
        if tag == TAG_ADDRESS {
            Some(IdKind::Address)
        } else if tag == TAG_OBJECT {
            Some(IdKind::Object)
        } else {
            None
        }
    }

    /// The length of a payload of the kind.
    pub fn payload_len(self) -> (r: usize)
        ensures
            r == payload_len_of(self),
    {
        match self {
            IdKind::Address => ADDRESS_LEN,
            IdKind::Object => OBJECT_LEN,
        }
    }
}

fn build_record(kind: IdKind, payload: &[u8]) -> (r: Vec<u8>)
    ensures
        r@ == record_bytes((kind, payload@)),
{
    let mut out: Vec<u8> = Vec::new();
    out.push(kind.tag());
    let mut tail = slice_to_vec(payload);
    out.append(&mut tail);
    assert(out@ =~= record_bytes((kind, payload@)));
    out
}

fn parse_record(b: &[u8]) -> (r: Result<(IdKind, Vec<u8>), DecodeError>)
    ensures
        match r {
            Ok(id) => record_parse(b@) == Ok::<(IdKind, Seq<u8>), DecodeError>((id.0, id.1@)),
            Err(e) => record_parse(b@) == Err::<(IdKind, Seq<u8>), DecodeError>(e),
        },
{
    if b.len() == 0 {
        return Err(DecodeError::WrongLength);
    }
    match IdKind::from_tag(b[0]) {
        None => Err(DecodeError::UnknownKind),
        Some(kind) => {
            if b.len() - 1 == kind.payload_len() {
                let mut payload: Vec<u8> = Vec::new();
                let mut i: usize = 1;
                while i < b.len()
                    invariant
                        1 <= i <= b@.len(),
                        payload@ == b@.subrange(1, i as int),
                    decreases b@.len() - i,
                {
                    payload.push(b[i]);
                    assert(payload@ =~= b@.subrange(1, i + 1));
                    i += 1;
                }
                assert(payload@ =~= b@.skip(1));
                Ok((kind, payload))
            } else {
                Err(DecodeError::WrongLength)
            }
        },
    }
}

/// The identifier of an agent. Its view is the kind and the payload. Where
/// none was written it reads as an address of zero bytes.
#[derive(Clone, Debug, PartialEq, Eq)]
pub struct ScAgentID {
    kind: IdKind,
    payload: Vec<u8>,
}

impl View for ScAgentID {
    type V = (IdKind, Seq<u8>);

    closed spec fn view(&self) -> (IdKind, Seq<u8>) {
        (self.kind, self.payload@)
    }
}

impl ScAgentID {
    /// The identifier of the given kind and payload, where the payload has
    /// the length of the kind.
    pub fn new(kind: IdKind, payload: &[u8]) -> (r: Option<ScAgentID>)
        ensures
            r is Some <==> payload@.len() == payload_len_of(kind),
            r is Some ==> r.unwrap().wf() && r.unwrap()@ == (kind, payload@),
    {
        if payload.len() == kind.payload_len() {
            Some(ScAgentID { kind, payload: slice_to_vec(payload) })
        } else {
            None
        }
    }

    /// The kind of the identity.
    pub fn kind(&self) -> (r: IdKind)
        ensures
            r == self@.0,
    {
        self.kind
    }

    /// The payload of the identity.
    pub fn payload(&self) -> (r: &[u8])
        ensures
            r@ == self@.1,
    {
        self.payload.as_slice()
    }
}

impl ScCodec for ScAgentID {
    type V = (IdKind, Seq<u8>);

    open spec fn wf(&self) -> bool {
        self@.1.len() == payload_len_of(self@.0)
    }

    open spec fn val(&self) -> (IdKind, Seq<u8>) {
        self@
    }

    open spec fn enc(v: (IdKind, Seq<u8>)) -> Seq<u8> {
        record_bytes(v)
    }

    open spec fn dec(b: Seq<u8>) -> Result<(IdKind, Seq<u8>), DecodeError> {
        record_parse(b)
    }

    open spec fn zero() -> (IdKind, Seq<u8>) {
        (IdKind::Address, Seq::new(payload_len_of(IdKind::Address), |i: int| 0u8))
    }

    fn default_value() -> (r: ScAgentID) {
        let mut payload: Vec<u8> = Vec::new();
        let mut i: usize = 0;
        while i < ADDRESS_LEN
            invariant
                0 <= i <= ADDRESS_LEN,
                payload@.len() == i,
                forall|j: int| 0 <= j < i ==> payload@[j] == 0u8,
            decreases ADDRESS_LEN - i,
        {
            payload.push(0u8);
            i += 1;
        }
        assert(payload@ =~= Self::zero().1);
        ScAgentID { kind: IdKind::Address, payload }
    }

    fn to_bytes(&self) -> (r: Vec<u8>) {
        build_record(self.kind, self.payload.as_slice())
    }

    fn from_bytes(b: &[u8]) -> (r: Result<ScAgentID, DecodeError>) {
        match parse_record(b) {
            Ok(id) => {
                proof {
                    lemma_record_bytes_parse(b@);
                }
                Ok(ScAgentID { kind: id.0, payload: id.1 })
            },
            Err(e) => Err(e),
        }
    }

    proof fn lemma_decode_encode(&self) {
        lemma_record_parse_bytes(self@);
    }

    proof fn lemma_encode_decode(b: Seq<u8>) {
        lemma_record_bytes_parse(b);
    }
}

/// The identifier of a non-fungible token. Its view is the kind and the payload. Where
/// none was written it reads as an object of zero bytes.
#[derive(Clone, Debug, PartialEq, Eq)]
pub struct ScNftID {
    kind: IdKind,
    payload: Vec<u8>,
}

impl View for ScNftID {
    type V = (IdKind, Seq<u8>);

    closed spec fn view(&self) -> (IdKind, Seq<u8>) {
        (self.kind, self.payload@)
    }
}

impl ScNftID {
    /// The identifier of the given kind and payload, where the payload has
    /// the length of the kind.
    pub fn new(kind: IdKind, payload: &[u8]) -> (r: Option<ScNftID>)
        ensures
            r is Some <==> payload@.len() == payload_len_of(kind),
            r is Some ==> r.unwrap().wf() && r.unwrap()@ == (kind, payload@),
    {
        if payload.len() == kind.payload_len() {
            Some(ScNftID { kind, payload: slice_to_vec(payload) })
        } else {
            None
        }
    }

    /// The kind of the identity.
    pub fn kind(&self) -> (r: IdKind)
        ensures
            r == self@.0,
    {
        self.kind
    }

    /// The payload of the identity.
    pub fn payload(&self) -> (r: &[u8])
        ensures
            r@ == self@.1,
    {
        self.payload.as_slice()
    }
}

impl ScCodec for ScNftID {
    type V = (IdKind, Seq<u8>);

    open spec fn wf(&self) -> bool {
        self@.1.len() == payload_len_of(self@.0)
    }

    open spec fn val(&self) -> (IdKind, Seq<u8>) {
        self@
    }

    open spec fn enc(v: (IdKind, Seq<u8>)) -> Seq<u8> {
        record_bytes(v)
    }

    open spec fn dec(b: Seq<u8>) -> Result<(IdKind, Seq<u8>), DecodeError> {
        record_parse(b)
    }

    open spec fn zero() -> (IdKind, Seq<u8>) {
        (IdKind::Object, Seq::new(payload_len_of(IdKind::Object), |i: int| 0u8))
    }

    fn default_value() -> (r: ScNftID) {
        let mut payload: Vec<u8> = Vec::new();
        let mut i: usize = 0;
        while i < OBJECT_LEN
            invariant
                0 <= i <= OBJECT_LEN,
                payload@.len() == i,
                forall|j: int| 0 <= j < i ==> payload@[j] == 0u8,
            decreases OBJECT_LEN - i,
        {
            payload.push(0u8);
            i += 1;
        }
        assert(payload@ =~= Self::zero().1);
        ScNftID { kind: IdKind::Object, payload }
    }

    fn to_bytes(&self) -> (r: Vec<u8>) {
        build_record(self.kind, self.payload.as_slice())
    }

    fn from_bytes(b: &[u8]) -> (r: Result<ScNftID, DecodeError>) {
        match parse_record(b) {
            Ok(id) => {
                proof {
                    lemma_record_bytes_parse(b@);
                }
                Ok(ScNftID { kind: id.0, payload: id.1 })
            },
            Err(e) => Err(e),
        }
    }

    proof fn lemma_decode_encode(&self) {
        lemma_record_parse_bytes(self@);
    }

    proof fn lemma_encode_decode(b: Seq<u8>) {
        lemma_record_bytes_parse(b);
    }
}

/// The identifier of a native token. Its view is the kind and the payload. Where
/// none was written it reads as an object of zero bytes.
#[derive(Clone, Debug, PartialEq, Eq)]
pub struct ScTokenID {
    kind: IdKind,
    payload: Vec<u8>,
}

impl View for ScTokenID {
    type V = (IdKind, Seq<u8>);

    closed spec fn view(&self) -> (IdKind, Seq<u8>) {
        (self.kind, self.payload@)
    }
}

impl ScTokenID {
    /// The identifier of the given kind and payload, where the payload has
    /// the length of the kind.
    pub fn new(kind: IdKind, payload: &[u8]) -> (r: Option<ScTokenID>)
        ensures
            r is Some <==> payload@.len() == payload_len_of(kind),
            r is Some ==> r.unwrap().wf() && r.unwrap()@ == (kind, payload@),
    {
        if payload.len() == kind.payload_len() {
            Some(ScTokenID { kind, payload: slice_to_vec(payload) })
        } else {
            None
        }
    }

    /// The kind of the identity.
    pub fn kind(&self) -> (r: IdKind)
        ensures
            r == self@.0,
    {
        self.kind
    }

    /// The payload of the identity.
    pub fn payload(&self) -> (r: &[u8])
        ensures
            r@ == self@.1,
    {
        self.payload.as_slice()
    }
}

impl ScCodec for ScTokenID {
    type V = (IdKind, Seq<u8>);

    open spec fn wf(&self) -> bool {
        self@.1.len() == payload_len_of(self@.0)
    }

    open spec fn val(&self) -> (IdKind, Seq<u8>) {
        self@
    }

    open spec fn enc(v: (IdKind, Seq<u8>)) -> Seq<u8> {
        record_bytes(v)
    }

    open spec fn dec(b: Seq<u8>) -> Result<(IdKind, Seq<u8>), DecodeError> {
        record_parse(b)
    }

    open spec fn zero() -> (IdKind, Seq<u8>) {
        (IdKind::Object, Seq::new(payload_len_of(IdKind::Object), |i: int| 0u8))
    }

    fn default_value() -> (r: ScTokenID) {
        let mut payload: Vec<u8> = Vec::new();
        let mut i: usize = 0;
        while i < OBJECT_LEN
            invariant
                0 <= i <= OBJECT_LEN,
                payload@.len() == i,
                forall|j: int| 0 <= j < i ==> payload@[j] == 0u8,
            decreases OBJECT_LEN - i,
        {
            payload.push(0u8);
            i += 1;
        }
        assert(payload@ =~= Self::zero().1);
        ScTokenID { kind: IdKind::Object, payload }
    }

    fn to_bytes(&self) -> (r: Vec<u8>) {
        build_record(self.kind, self.payload.as_slice())
    }

    fn from_bytes(b: &[u8]) -> (r: Result<ScTokenID, DecodeError>) {
        match parse_record(b) {
            Ok(id) => {
                proof {
                    lemma_record_bytes_parse(b@);
                }
                Ok(ScTokenID { kind: id.0, payload: id.1 })
            },
            Err(e) => Err(e),
        }
    }

    proof fn lemma_decode_encode(&self) {
        lemma_record_parse_bytes(self@);
    }

    proof fn lemma_encode_decode(b: Seq<u8>) {
        lemma_record_bytes_parse(b);
    }
}

} // verus!
