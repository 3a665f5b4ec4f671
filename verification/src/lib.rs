//! A short-lived rendezvous point: two endpoints with no prior channel
//! exchange one pair of opaque session-establishment payloads under a
//! short shared identifier.
//!
//! The core is the registry of session records ([`registry`]): identifier
//! allocation, create/get/attach-reply operations, and time-based expiry,
//! with the request/response mapping in [`api`] and the cross-operation
//! guarantees proved in [`laws`].  The surrounding process supplies the
//! lock, the clock and the transport.

use vstd::prelude::*;

pub mod api;
pub mod doom;
mod entropy;
pub mod ident;
pub mod laws;
pub mod record;
pub mod registry;
pub mod signalling;
pub mod wordle;

verus! {

/// Size of the identifier keyspace: identifiers are the canonical decimal
/// strings of the numbers `0 .. ID_KEYSPACE`.
pub const ID_KEYSPACE: u64 = 10000;

/// Reference record lifetime: a record is evicted once it is this old.
pub const DEFAULT_TTL_MILLIS: u64 = 30 * 60 * 1000;

/// Reference period of the expiry sweep.
pub const DEFAULT_SWEEP_MILLIS: u64 = 10 * 60 * 1000;

} // verus!
