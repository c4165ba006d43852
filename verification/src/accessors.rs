//! Typed accessors: a proxy together with the codec of one value type.
//!
//! An immutable accessor only reads. A mutable accessor reads and writes. The
//! access mode is the accessor's type, so a write through a read-only view
//! does not compile.

use vstd::prelude::*;
use core::marker::PhantomData;
use crate::bigint::ScBigInt;
use crate::codec::DecodeError;
use crate::codec::ScCodec;
use crate::ids::ScAgentID;
use crate::ids::ScNftID;
use crate::ids::ScTokenID;
use crate::keyspace::KeySpace;
use crate::proxy::Proxy;

verus! {

/// What a read of type `T` at `key` gives in the key space `ks`: the zero of
/// the type where nothing is stored, else what the stored bytes decode to, or
/// the reason why they do not decode.
pub open spec fn stored<T: ScCodec>(ks: Map<Seq<u8>, Seq<u8>>, key: Seq<u8>) -> Result<
    T::V,
    DecodeError,
> {
    if ks.contains_key(key) {
        T::dec(ks[key])
    } else {
        Ok(T::zero())
    }
}

/// A read never fails where nothing was written: it gives the zero of the
/// type.
pub proof fn lemma_absent_reads_zero<T: ScCodec>(ks: Map<Seq<u8>, Seq<u8>>, key: Seq<u8>)
    requires
        !ks.contains_key(key),
    ensures
        stored::<T>(ks, key) == Ok::<T::V, DecodeError>(T::zero()),
{
}

/// A read that follows a write of `v` at the same key gives `v`.
pub proof fn lemma_read_after_write<T: ScCodec>(ks: Map<Seq<u8>, Seq<u8>>, key: Seq<u8>, v: &T)
    requires
        v.wf(),
    ensures
        stored::<T>(ks.insert(key, T::enc(v.val())), key) == Ok::<T::V, DecodeError>(v.val()),
{
    v.lemma_decode_encode();
}

/// A write at one key leaves what is read at every other key as it was.
pub proof fn lemma_write_keeps_others<T: ScCodec>(
    ks: Map<Seq<u8>, Seq<u8>>,
    key: Seq<u8>,
    bytes: Seq<u8>,
    other: Seq<u8>,
)
    requires
        other != key,
    ensures
        stored::<T>(ks.insert(key, bytes), other) == stored::<T>(ks, other),
{
}

fn read_value<T: ScCodec>(proxy: &Proxy, ks: &KeySpace) -> (r: Result<T, DecodeError>)
    requires
        ks.wf(),
    ensures
        match r {
            Ok(x) => x.wf() && stored::<T>(ks@, proxy@) == Ok::<T::V, DecodeError>(x.val()),
            Err(e) => stored::<T>(ks@, proxy@) == Err::<T::V, DecodeError>(e),
        },
{
    match proxy.get_bytes(ks) {
        Some(bytes) => T::from_bytes(bytes.as_slice()),
        None => Ok(T::default_value()),
    }
}

/// A read-only accessor of a value of type `T`.
pub struct ScImmutable<T: ScCodec> {
    proxy: Proxy,
    marker: PhantomData<T>,
}

/// A read-write accessor of a value of type `T`.
pub struct ScMutable<T: ScCodec> {
    proxy: Proxy,
    marker: PhantomData<T>,
}

impl<T: ScCodec> View for ScImmutable<T> {
    type V = Seq<u8>;

    /// The key that the accessor reads.
    closed spec fn view(&self) -> Seq<u8> {
        self.proxy@
    }
}

impl<T: ScCodec> View for ScMutable<T> {
    type V = Seq<u8>;

    /// The key that the accessor reads and writes.
    closed spec fn view(&self) -> Seq<u8> {
        self.proxy@
    }
}

impl<T: ScCodec> ScImmutable<T> {
    /// The accessor of the location that `proxy` addresses.
    pub fn new(proxy: Proxy) -> (r: Self)
        ensures
            r@ == proxy@,
    {
        ScImmutable { proxy, marker: PhantomData }
    }

    /// The key that the accessor addresses.
    pub fn key(&self) -> (r: &[u8])
        ensures
            r@ == self@,
    {
        self.proxy.key()
    }

    /// Whether a value is stored at the key.
    pub fn is_present(&self, ks: &KeySpace) -> (r: bool)
        requires
            ks.wf(),
        ensures
            r == ks@.contains_key(self@),
    {
        self.proxy.is_present(ks)
    }

    /// The value at the key: the zero of the type where none is stored, and
    /// an error where the stored bytes are not the encoding of any value.
    pub fn value(&self, ks: &KeySpace) -> (r: Result<T, DecodeError>)
        requires
            ks.wf(),
        ensures
            match r {
                Ok(x) => x.wf() && stored::<T>(ks@, self@) == Ok::<T::V, DecodeError>(x.val()),
                Err(e) => stored::<T>(ks@, self@) == Err::<T::V, DecodeError>(e),
            },
    {
        read_value::<T>(&self.proxy, ks)
    }
}

impl<T: ScCodec> ScMutable<T> {
    /// The accessor of the location that `proxy` addresses.
    pub fn new(proxy: Proxy) -> (r: Self)
        ensures
            r@ == proxy@,
    {
        ScMutable { proxy, marker: PhantomData }
    }

    /// The key that the accessor addresses.
    pub fn key(&self) -> (r: &[u8])
        ensures
            r@ == self@,
    {
        self.proxy.key()
    }

    /// Whether a value is stored at the key.
    pub fn is_present(&self, ks: &KeySpace) -> (r: bool)
        requires
            ks.wf(),
        ensures
            r == ks@.contains_key(self@),
    {
        self.proxy.is_present(ks)
    }

    /// The value at the key: the zero of the type where none is stored, and
    /// an error where the stored bytes are not the encoding of any value.
    pub fn value(&self, ks: &KeySpace) -> (r: Result<T, DecodeError>)
        requires
            ks.wf(),
        ensures
            match r {
                Ok(x) => x.wf() && stored::<T>(ks@, self@) == Ok::<T::V, DecodeError>(x.val()),
                Err(e) => stored::<T>(ks@, self@) == Err::<T::V, DecodeError>(e),
            },
    {
        read_value::<T>(&self.proxy, ks)
    }

    /// Stores the encoding of `v` at the key. The key then holds a value,
    /// and a read of it gives `v`.
    pub fn set_value(&self, ks: &mut KeySpace, v: &T)
        requires
            old(ks).wf(),
            v.wf(),
        ensures
            final(ks).wf(),
            final(ks)@ == old(ks)@.insert(self@, T::enc(v.val())),
            final(ks)@.contains_key(self@),
            stored::<T>(final(ks)@, self@) == Ok::<T::V, DecodeError>(v.val()),
    {
        let bytes = v.to_bytes();
        self.proxy.set_bytes(ks, bytes.as_slice());
        proof {
            v.lemma_decode_encode();
        }
    }

    /// Takes the value at the key away. A read then gives the zero of the
    /// type.
    pub fn delete(&self, ks: &mut KeySpace)
        requires
            old(ks).wf(),
        ensures
            final(ks).wf(),
            final(ks)@ == old(ks)@.remove(self@),
            stored::<T>(final(ks)@, self@) == Ok::<T::V, DecodeError>(T::zero()),
    {
        self.proxy.delete(ks);
    }
}

pub type ScImmutableBool = ScImmutable<bool>;

pub type ScMutableBool = ScMutable<bool>;

pub type ScImmutableUint8 = ScImmutable<u8>;

pub type ScMutableUint8 = ScMutable<u8>;

pub type ScImmutableUint32 = ScImmutable<u32>;

pub type ScMutableUint32 = ScMutable<u32>;

pub type ScImmutableUint64 = ScImmutable<u64>;

pub type ScMutableUint64 = ScMutable<u64>;

pub type ScImmutableBigInt = ScImmutable<ScBigInt>;

pub type ScMutableBigInt = ScMutable<ScBigInt>;

pub type ScImmutableString = ScImmutable<String>;

pub type ScMutableString = ScMutable<String>;

pub type ScImmutableBytes = ScImmutable<Vec<u8>>;

pub type ScMutableBytes = ScMutable<Vec<u8>>;

pub type ScImmutableAgentID = ScImmutable<ScAgentID>;

pub type ScMutableAgentID = ScMutable<ScAgentID>;

pub type ScImmutableNftID = ScImmutable<ScNftID>;

pub type ScMutableNftID = ScMutable<ScNftID>;

pub type ScImmutableTokenID = ScImmutable<ScTokenID>;

pub type ScMutableTokenID = ScMutable<ScTokenID>;

} // verus!
