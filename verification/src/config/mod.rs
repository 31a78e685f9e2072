//! Project configuration: schema, built-in presets and merging.
pub mod schema;
pub mod presets;
pub mod merge;
pub mod laws;
