//! Contracts for the functions of other crates that the library calls.
//!
//! Nothing in this module is proved: each item states what the named
//! function is taken to do, and the rest of the crate is verified against
//! these statements.

pub mod channel;
pub mod clock;
pub mod http;
pub mod ids;
pub mod json;
pub mod jwt;
pub mod numbers;
pub mod password;
