//! Channel integrations.
pub mod framework;
pub mod manager;
