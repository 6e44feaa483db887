//! A keyed cache with expiry, and what is stored in it.
//!
//! [`store::CacheStore`] is the primitive that a cache technology offers:
//! get, set, increment-or-initialise and delete on string keys.
//! [`memory::MemoryCache`] is such a store held in memory, and
//! [`remote::Remote`] one behind the client of a cache server.
//! [`access::Cache`] files payloads under keys made of a category and an
//! identity, [`codec`] writes numbers as payloads, and [`laws`] says what
//! holds of every store that can be relied on.

pub mod access;
pub mod codec;
pub mod key;
pub mod laws;
pub mod memory;
pub mod remote;
pub mod store;
