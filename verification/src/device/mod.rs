//! Hardware device management.
pub mod manager;
