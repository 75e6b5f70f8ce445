//! Settings of the gateway.
use vstd::prelude::*;

verus! {

/// Where the database is and how many connections to keep.
#[derive(Debug, Clone, Default)]
pub struct DatabaseConfig {
    pub url: String,
    pub max_connections: u32,
}

/// How user tokens are signed and how long they last.
#[derive(Debug, Clone, Default)]
pub struct AuthConfig {
    pub jwt_secret: String,
    /// In seconds.
    pub jwt_expiration: i64,
}

/// All settings.
#[derive(Debug, Clone, Default)]
pub struct Settings {
    pub database: DatabaseConfig,
    pub auth: AuthConfig,
}

} // verus!
