//! The language servers: clangd with its generated `.clangd`, neocmakelsp,
//! and the workspace files prepared before clangd starts.
pub mod clangd_config;
pub mod workspace_config;
pub mod host;
pub mod launch;
pub mod server;
pub mod compile_database;
pub mod examples;
pub mod neocmake;
