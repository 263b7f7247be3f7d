//! Conversation sessions.
pub mod manager;
pub mod store;
