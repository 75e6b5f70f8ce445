//! The gateway's error type and its HTTP status codes.
use vstd::prelude::*;

verus! {

/// Errors of the gateway. Database and migration errors carry the message of
/// the underlying driver error.
#[derive(Debug, Clone)]
pub enum MantiError {
    Database(String),
    Migration(String),
    Config(String),
    Auth(String),
    Provider(String),
    Billing(String),
    Validation(String),
    NotFound(String),
    RateLimitExceeded,
    Internal,
}

/// The HTTP status code answered for each kind of error.
pub open spec fn status_code_of(e: MantiError) -> u16 {
    match e {
        MantiError::Database(_) => 500,
        MantiError::Migration(_) => 500,
        MantiError::Config(_) => 500,
        MantiError::Auth(_) => 401,
        MantiError::Provider(_) => 502,
        MantiError::Billing(_) => 402,
        MantiError::Validation(_) => 400,
        MantiError::NotFound(_) => 404,
        MantiError::RateLimitExceeded => 429,
        MantiError::Internal => 500,
    }
}

impl MantiError {
    /// The HTTP status code for this error.
    pub fn to_status_code(&self) -> (r: u16)
        ensures
            r == status_code_of(*self),
    {
        match self {
            MantiError::Database(_) => 500,
            MantiError::Migration(_) => 500,
            MantiError::Config(_) => 500,
            MantiError::Auth(_) => 401,
            MantiError::Provider(_) => 502,
            MantiError::Billing(_) => 402,
            MantiError::Validation(_) => 400,
            MantiError::NotFound(_) => 404,
            MantiError::RateLimitExceeded => 429,
            MantiError::Internal => 500,
        }
    }
}

/// The message shown for each error.
pub open spec fn error_message(e: MantiError) -> Seq<char> {
    match e {
        MantiError::Database(m) => "Database error: "@ + m@,
        MantiError::Migration(m) => "Migration error: "@ + m@,
        MantiError::Config(m) => "Configuration error: "@ + m@,
        MantiError::Auth(m) => "Authentication error: "@ + m@,
        MantiError::Provider(m) => "Provider error: "@ + m@,
        MantiError::Billing(m) => "Billing error: "@ + m@,
        MantiError::Validation(m) => "Validation error: "@ + m@,
        MantiError::NotFound(m) => "Not found: "@ + m@,
        MantiError::RateLimitExceeded => "Rate limit exceeded"@,
        MantiError::Internal => "Internal server error"@,
    }
}

fn prefixed(prefix: &str, m: &String) -> (r: String)
    ensures
        r@ == prefix@ + m@,
{
    let mut s = String::from_str(prefix);
    s.append(m.as_str());
    s
}

impl MantiError {
    /// The message shown for this error.
    pub fn message(&self) -> (r: String)
        ensures
            r@ == error_message(*self),
    {
        match self {
            MantiError::Database(m) => prefixed("Database error: ", m),
            MantiError::Migration(m) => prefixed("Migration error: ", m),
            MantiError::Config(m) => prefixed("Configuration error: ", m),
            MantiError::Auth(m) => prefixed("Authentication error: ", m),
            MantiError::Provider(m) => prefixed("Provider error: ", m),
            MantiError::Billing(m) => prefixed("Billing error: ", m),
            MantiError::Validation(m) => prefixed("Validation error: ", m),
            MantiError::NotFound(m) => prefixed("Not found: ", m),
            MantiError::RateLimitExceeded => "Rate limit exceeded".to_string(),
            MantiError::Internal => "Internal server error".to_string(),
        }
    }
}

} // verus!
