//! CMake integration: commands, compile database discovery, legacy task
//! files and target discovery.
pub mod compile_db;
pub mod file_api;
pub mod tasks;
pub mod targets;
pub mod tools;
