//! Typed access to values in a flat, byte-oriented key/value space.
//!
//! A [`proxy::Proxy`] addresses one location of a [`keyspace::KeySpace`] by a
//! composed key. A typed accessor pairs a proxy with the codec of one value
//! type, either read-only or read-write. The structs in [`params`] group the
//! accessors of the parameters of each entry point of the accounts contract.

pub mod accessors;
pub mod bigint;
pub mod codec;
pub mod endian;
pub mod ids;
pub mod keyspace;
pub mod params;
pub mod proxy;
