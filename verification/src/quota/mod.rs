pub mod rate_limiter;
pub mod checker;
