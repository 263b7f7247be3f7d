//! Agent loop and context management.
pub mod context;
pub mod context_builder;
pub mod executor;
pub mod loop_impl;
pub mod memory;
