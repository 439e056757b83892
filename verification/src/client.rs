//! The client side: token lifecycle and the transport-independent part of
//! the HTTP and gRPC clients.

pub mod blog_client;
pub mod error;
pub mod grpc_client;
pub mod http_client;
pub mod interceptor;
pub mod token_manager;
pub mod types;
