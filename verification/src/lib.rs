//! PicoClaw: the core of a lightweight personal AI assistant.
pub mod agent;
pub mod auth;
pub mod bus;
pub mod channels;
pub mod clock;
pub mod config;
pub mod cron;
pub mod device;
pub mod error;
pub mod heartbeat;
pub mod json;
pub mod llm;
pub mod runtime;
pub mod session;
pub mod state;
pub mod table;
pub mod text;
pub mod tools;
