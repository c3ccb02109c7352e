//! Settings read from the environment, with their defaults.
//!
//! The application reads each variable and hands its value (or `None`
//! when it is unset) to `from_values`.

use vstd::prelude::*;
use crate::decimal::{parse_u32, spec_parse_u32};

verus! {

pub const APP_NAME_VAR: &'static str = "APP_NAME";
pub const LISTEN_ADDR_VAR: &'static str = "LISTEN_ADDR";
pub const DATABASE_URL_VAR: &'static str = "DATABASE_URL";
pub const DB_MAX_CONNECTIONS_VAR: &'static str = "DB_MAX_CONNECTIONS";
pub const JWT_SECRET_VAR: &'static str = "JWT_SECRET";

/// The pool size when `DB_MAX_CONNECTIONS` is unset or not a `u32`.
pub const DEFAULT_MAX_CONNECTIONS: u32 = 10;

pub struct AppConfig {
    /// `APP_NAME` (required).
    pub name: String,
    /// `LISTEN_ADDR`, default `0.0.0.0:3000`.
    pub listen_addr: String,
}

pub struct DatabaseConfig {
    /// `DATABASE_URL` (required).
    pub url: String,
    /// `DB_MAX_CONNECTIONS`, default 10.
    pub max_connections: u32,
}

pub struct AuthConfig {
    /// `JWT_SECRET` (required).
    pub jwt_secret: String,
}

fn or_default(value: Option<String>, default: &str) -> (r: String)
    ensures
        r@ == match value {
            Some(v) => v@,
            None => default@,
        },
{
    match value {
        Some(v) => v,
        None => String::from_str(default),
    }
}

impl AppConfig {
    pub fn from_values(name: String, listen_addr: Option<String>) -> (r: AppConfig)
        ensures
            r.name == name,
            r.listen_addr@ == match listen_addr {
                Some(v) => v@,
                None => "0.0.0.0:3000"@,
            },
    {
        AppConfig {
            name,
            listen_addr: or_default(listen_addr, "0.0.0.0:3000"),
        }
    }
}

impl DatabaseConfig {
    /// The pool size is the variable's value when it parses as a `u32`, and
    /// the default otherwise.
    pub fn from_values(url: String, max_connections: Option<String>) -> (r: DatabaseConfig)
        ensures
            r.url == url,
            r.max_connections == match max_connections {
                Some(v) => match spec_parse_u32(v@) {
                    Some(n) => n,
                    None => DEFAULT_MAX_CONNECTIONS,
                },
                None => DEFAULT_MAX_CONNECTIONS,
            },
    {
        let max = match max_connections {
            Some(v) => match parse_u32(v.as_str()) {
                Some(n) => n,
                None => DEFAULT_MAX_CONNECTIONS,
            },
            None => DEFAULT_MAX_CONNECTIONS,
        };
        DatabaseConfig { url, max_connections: max }
    }
}

impl AuthConfig {
    pub fn from_values(jwt_secret: String) -> (r: AuthConfig)
        ensures
            r.jwt_secret == jwt_secret,
    {
        AuthConfig { jwt_secret }
    }
}

} // verus!
