//! LLM provider integrations.
pub mod client;
pub mod framework;
