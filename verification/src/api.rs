//! The messages exchanged between client and server.

pub mod grpc;
pub mod rest;
