//! The server side: domain values, the rules of the use cases and the
//! mappings to the wire forms of both transports.

pub mod application;
pub mod auth_service;
pub mod config;
pub mod domain;
pub mod dto;
pub mod presentation;
