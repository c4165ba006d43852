//! Unsigned integers of any size, stored as their big-endian magnitude.

use vstd::prelude::*;
use vstd::slice::slice_to_vec;
use crate::codec::DecodeError;
use crate::codec::ScCodec;

verus! {

/// The number that a big-endian magnitude stands for.
pub open spec fn magnitude_value(b: Seq<u8>) -> nat
    decreases b.len(),
{
    if b.len() == 0 {
        0
    } else {
        magnitude_value(b.drop_last()) * 256 + b.last() as nat
    }
}

/// The shortest big-endian magnitude of `n`: no byte at all for zero.
pub open spec fn magnitude_bytes(n: nat) -> Seq<u8>
    decreases n,
{
    if n == 0 {
        Seq::empty()
    } else {
        magnitude_bytes(n / 256).push((n % 256) as u8)
    }
}

/// The magnitude has no zero byte at its front.
pub open spec fn minimal(b: Seq<u8>) -> bool {
    b.len() == 0 || b[0] != 0
}

/// The shortest magnitude of a number is minimal and stands for that number.
pub proof fn lemma_magnitude_bytes_value(n: nat)
    ensures
        magnitude_value(magnitude_bytes(n)) == n,
        minimal(magnitude_bytes(n)),
        n > 0 ==> magnitude_bytes(n).len() > 0,
    decreases n,
{
    if n > 0 {
        let head = magnitude_bytes(n / 256);
        let b = magnitude_bytes(n);
        lemma_magnitude_bytes_value(n / 256);
        assert(b.drop_last() =~= head);
        if head.len() > 0 {
            assert(b[0] == head[0]);
        } else {
            assert(n / 256 == 0);
            assert(b[0] == (n % 256) as u8);
        }
    }
}

/// A minimal magnitude that holds a byte stands for a positive number.
pub proof fn lemma_minimal_positive(b: Seq<u8>)
    requires
        minimal(b),
        b.len() > 0,
    ensures
        magnitude_value(b) > 0,
    decreases b.len(),
{
    if b.len() > 1 {
        assert(b.drop_last()[0] == b[0]);
        lemma_minimal_positive(b.drop_last());
    } else {
        assert(b.drop_last().len() == 0);
        assert(b.last() == b[0]);
    }
}

/// A minimal magnitude is the shortest magnitude of its number.
pub proof fn lemma_magnitude_value_bytes(b: Seq<u8>)
    requires
        minimal(b),
    ensures
        magnitude_bytes(magnitude_value(b)) == b,
    decreases b.len(),
{
    if b.len() > 0 {
        let head = b.drop_last();
        let n = magnitude_value(b);
        lemma_minimal_positive(b);
        if head.len() > 0 {
            assert(head[0] == b[0]);
        }
        lemma_magnitude_value_bytes(head);
        assert(n / 256 == magnitude_value(head));
        assert(n % 256 == b.last() as nat);
        assert(magnitude_bytes(n) =~= b);
    }
}

/// An unsigned integer of any size. It holds its minimal magnitude; its
/// value is the number that the magnitude stands for.
#[derive(Clone, Debug, PartialEq, Eq)]
pub struct ScBigInt {
    bytes: Vec<u8>,
}

impl View for ScBigInt {
    type V = Seq<u8>;

    /// The magnitude held.
    closed spec fn view(&self) -> Seq<u8> {
        self.bytes@
    }
}

fn push_magnitude(v: u64, out: &mut Vec<u8>)
    ensures
        final(out)@ == old(out)@ + magnitude_bytes(v as nat),
    decreases v,
{
    if v == 0 {
        assert(out@ =~= out@ + magnitude_bytes(0));
    } else {
        let ghost start = out@;
        push_magnitude(v / 256, out);
        out.push((v % 256) as u8);
        assert(out@ =~= start + magnitude_bytes(v as nat));
    }
}

impl ScBigInt {
    /// The big integer of the same value as `v`.
    pub fn from_u64(v: u64) -> (r: ScBigInt)
        ensures
            r.wf(),
            r.val() == v,
    {
        let mut bytes: Vec<u8> = Vec::new();
        push_magnitude(v, &mut bytes);
        proof {
            assert(bytes@ =~= magnitude_bytes(v as nat));
            lemma_magnitude_bytes_value(v as nat);
        }
        ScBigInt { bytes }
    }

    /// Whether the value is zero.
    pub fn is_zero(&self) -> (r: bool)
        requires
            self.wf(),
        ensures
            r == (self.val() == 0),
    {
        proof {
            if self.bytes@.len() > 0 {
                lemma_minimal_positive(self.bytes@);
            }
        }
        self.bytes.len() == 0
    }

    /// The magnitude: big-endian, with no zero byte at its front.
    pub fn magnitude(&self) -> (r: &[u8])
        ensures
            r@ == self@,
    {
        self.bytes.as_slice()
    }
}

impl ScCodec for ScBigInt {
    type V = nat;

    open spec fn wf(&self) -> bool {
        minimal(self@)
    }

    open spec fn val(&self) -> nat {
        magnitude_value(self@)
    }

    open spec fn enc(v: nat) -> Seq<u8> {
        magnitude_bytes(v)
    }

    open spec fn dec(b: Seq<u8>) -> Result<nat, DecodeError> {
        if minimal(b) {
            Ok(magnitude_value(b))
        } else {
            Err(DecodeError::LeadingZero)
        }
    }

    open spec fn zero() -> nat {
        0
    }

    fn default_value() -> (r: ScBigInt) {
        ScBigInt { bytes: Vec::new() }
    }

    fn to_bytes(&self) -> (r: Vec<u8>) {
        proof {
            lemma_magnitude_value_bytes(self@);
        }
        slice_to_vec(self.bytes.as_slice())
    }

    fn from_bytes(b: &[u8]) -> (r: Result<ScBigInt, DecodeError>) {
        if b.len() > 0 && b[0] == 0 {
            Err(DecodeError::LeadingZero)
        } else {
            Ok(ScBigInt { bytes: slice_to_vec(b) })
        }
    }

    proof fn lemma_decode_encode(&self) {
        lemma_magnitude_bytes_value(self.val());
    }

    proof fn lemma_encode_decode(b: Seq<u8>) {
        lemma_magnitude_value_bytes(b);
    }
}

} // verus!
