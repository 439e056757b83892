//! The transports a client can speak.

use vstd::prelude::*;

verus! {

/// The transport of a client, with the address of the server.
#[derive(Debug, PartialEq, Eq)]
pub enum Transport {
    /// gRPC, at the given URL.
    Grpc(String),
    /// HTTP, under the given base URL.
    Http(String),
}

} // verus!
