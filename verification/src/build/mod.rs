//! Zed task generation.
pub mod shell;
pub mod laws;
pub mod tasks;
