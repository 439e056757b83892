//! Verified core of a multi-transport blog platform.
//!
//! The crate holds the rules of the platform as functions on plain values:
//! the client-side token lifecycle (decoding claims, deciding when a token is
//! stale, coordinating refreshes), the shaping of requests and responses for
//! the transports, and the server-side mappings between domain values and
//! their wire forms. Network, storage and scheduling are left to the caller.

use vstd::prelude::*;

pub mod api;
pub mod bindings;
pub mod client;
pub mod server;
pub mod text;
pub mod time;

verus! {

/// Sum of two unsigned numbers.
pub fn add(left: u64, right: u64) -> (sum: u64)
    requires
        left + right <= u64::MAX,
    ensures
        sum == left + right,
{
    left + right
}

} // verus!
