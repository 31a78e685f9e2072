[package]
name = "cpp_toolkit"
version = "1.0.0"
edition = "2021"
publish = false

[dependencies]
serde = { version = "1", features = ["derive"] }
serde_json = "1"
toml = "0.8"
zed_extension_api = "0.7"
