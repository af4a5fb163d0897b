[package]
name = "call2fa"
version = "0.1.0"
edition = "2021"
publish = false

[dependencies]
serde_json = "1"
reqwest = { version = "0.12", features = ["blocking"] }
thiserror = "2"
env_logger = "0.11"
