[package]
name = "markup_plugin"
version = "0.1.0"
edition = "2021"
publish = false

[dependencies]
anyhow = "=1.0.104"
dprint-core = { version = "=0.70.0", features = ["wasm"] }
markup_fmt = { version = "=0.27.5", features = ["config_serde"] }
