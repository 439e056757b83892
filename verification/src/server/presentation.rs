//! What the transports show of the use cases.

pub mod error;
pub mod grpc;
pub mod http;
