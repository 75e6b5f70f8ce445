pub mod billing;
pub mod chat;
pub mod anthropic;
pub mod streaming;
pub mod conversion;
pub mod money;
pub mod api_key;
pub mod user;
pub mod provider_config;
pub mod usage;
pub mod response;
pub mod model;
