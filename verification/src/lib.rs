//! Manti LLM gateway core: request/response format conversion between the
//! OpenAI and Anthropic wire formats, stream usage accounting, rate limiting,
//! quota decisions, credentials handling and authorization rules.

pub mod error;
pub mod models;
pub mod text;
pub mod json;
pub mod clock;
pub mod usage;
pub mod quota;
pub mod providers;
pub mod auth;
pub mod api;
pub mod config;
