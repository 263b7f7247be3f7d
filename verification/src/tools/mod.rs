//! Tool framework and implementations.
pub mod base;
pub mod framework;
pub mod paths;
pub mod registry;
pub mod write_file;
