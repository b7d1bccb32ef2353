[package]
name = "wynn_api"
version = "0.1.0"
edition = "2021"
publish = false

[dependencies]
reqwest = "0.12"
serde_json = "1"
thiserror = "1"
