//! The settings of the server.

use vstd::prelude::*;
use vstd::string::*;
use crate::bindings::numbers::{parse_i64, parse_u16, written_integer};

verus! {

/// The gRPC server listens here where no port is set.
pub const DEFAULT_GRPC_PORT: u16 = 50051;

/// The settings the server runs with.
#[derive(Debug, PartialEq, Eq)]
pub struct Config {
    /// Connection string of the PostgreSQL database.
    pub db_connection_string: String,
    /// Secret the tokens are signed with.
    pub jwt_secret: String,
    /// Lifetime of an access token in seconds.
    pub jwt_expiration_seconds: i64,
    /// Where the HTTP server listens.
    pub server_port: u16,
    /// Where the gRPC server listens.
    pub grpc_port: u16,
    /// Origin that may call across sites.
    pub cors_origin: String,
    /// Level of logging: trace, debug, info, warn or error.
    pub log_level: String,
}

/// The settings as the environment holds them: the text of each variable.
#[derive(Debug, PartialEq, Eq)]
pub struct Environment {
    /// `DB_CONNECTION_STRING`.
    pub db_connection_string: String,
    /// `JWT_SECRET`.
    pub jwt_secret: String,
    /// `JWT_EXPIRATION_SECONDS`.
    pub jwt_expiration_seconds: String,
    /// `SERVER_PORT`.
    pub server_port: String,
    /// `GRPC_PORT`, where it is set.
    pub grpc_port: Option<String>,
    /// `CORS_ORIGIN`.
    pub cors_origin: String,
    /// `LOG_LEVEL`, where it is set.
    pub log_level: Option<String>,
}

/// The setting that does not hold a number it can.
#[derive(Debug, Clone, Copy, PartialEq, Eq, Structural)]
pub enum ConfigError {
    InvalidExpiration,
    InvalidServerPort,
    InvalidGrpcPort,
}

/// The lifetime that a text sets.
pub open spec fn lifetime_set(text: Seq<char>) -> Option<i64> {
    match written_integer(text, true) {
        Some(value) => if i64::MIN <= value <= i64::MAX {
            Some(value as i64)
        } else {
            None
        },
        None => None,
    }
}

/// The port that a text sets.
pub open spec fn port_set(text: Seq<char>) -> Option<u16> {
    match written_integer(text, false) {
        Some(value) => if value <= u16::MAX {
            Some(value as u16)
        } else {
            None
        },
        None => None,
    }
}

/// Whether `result` is what the settings of `env` come to. The numbers are
/// read in the order lifetime, HTTP port, gRPC port, and the first that is
/// no number of its range is the error. A gRPC port that is not set is
/// 50051, a level of logging that is not set is `info`.
pub open spec fn configured(env: Environment, result: Result<Config, ConfigError>) -> bool {
    match lifetime_set(env.jwt_expiration_seconds@) {
        None => result == Err::<Config, ConfigError>(ConfigError::InvalidExpiration),
        Some(lifetime) => match port_set(env.server_port@) {
            None => result == Err::<Config, ConfigError>(ConfigError::InvalidServerPort),
            Some(server_port) => match grpc_port_set(env.grpc_port) {
                None => result == Err::<Config, ConfigError>(ConfigError::InvalidGrpcPort),
                Some(grpc_port) => {
                    &&& result matches Ok(config)
                    &&& config.db_connection_string@ == env.db_connection_string@
                    &&& config.jwt_secret@ == env.jwt_secret@
                    &&& config.jwt_expiration_seconds == lifetime
                    &&& config.server_port == server_port
                    &&& config.grpc_port == grpc_port
                    &&& config.cors_origin@ == env.cors_origin@
                    &&& config.log_level@ == match env.log_level {
                        Some(level) => level@,
                        None => "info"@,
                    }
                },
            },
        },
    }
}

/// The gRPC port that the environment sets.
pub open spec fn grpc_port_set(text: Option<String>) -> Option<u16> {
    match text {
        Some(port) => port_set(port@),
        None => Some(DEFAULT_GRPC_PORT),
    }
}

impl Config {
    /// The settings that the environment holds.
    pub fn from_env(env: Environment) -> (result: Result<Config, ConfigError>)
        ensures
            configured(env, result),
    {
        let jwt_expiration_seconds = match parse_i64(env.jwt_expiration_seconds.as_str()) {
            Some(seconds) => seconds,
            None => return Err(ConfigError::InvalidExpiration),
        };
        let server_port = match parse_u16(env.server_port.as_str()) {
            Some(port) => port,
            None => return Err(ConfigError::InvalidServerPort),
        };
        let grpc_port = match &env.grpc_port {
            None => DEFAULT_GRPC_PORT,
            Some(text) => match parse_u16(text.as_str()) {
                Some(port) => port,
                None => return Err(ConfigError::InvalidGrpcPort),
            },
        };
        let log_level = match env.log_level {
            Some(level) => level,
            None => String::from_str("info"),
        };
        Ok(
            Config {
                db_connection_string: env.db_connection_string,
                jwt_secret: env.jwt_secret,
                jwt_expiration_seconds,
                server_port,
                grpc_port,
                cors_origin: env.cors_origin,
                log_level,
            },
        )
    }
}

} // verus!
