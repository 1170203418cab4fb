[package]
name = "rpc_config"
version = "0.1.0"
edition = "2021"
publish = false

[dependencies]
serde = { version = "1", features = ["derive"] }
toml = { version = "0.7", features = ["preserve_order"] }
tracing = "0.1"
