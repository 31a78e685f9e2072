//! Verified core of the Zed C/C++ toolkit extension: configuration presets
//! and merging, `.clangd` rendering, Zed task generation, CMake target
//! discovery and the decisions taken while preparing a workspace.
use vstd::prelude::*;

pub mod debug;
pub mod error;
pub mod text;
pub mod config;
pub mod build;
pub mod cmake;
pub mod json;
pub mod json_model;
pub mod paths;
pub mod quoting;
pub mod environment;
pub mod files;
pub mod lsp;
pub mod toolchain;
