[package]
name = "alith_engine"
version = "0.1.0"
edition = "2021"
publish = false

[dependencies]
linkify = "*"
url = "2"
anyhow = "1"
thiserror = "1"
serde = { version = "1", features = ["derive"] }
serde_json = "1"
reqwest = { version = "0.12", default-features = false, features = ["json"] }
secrecy = "*"
nvml-wrapper = "*"
tracing = "0.1"
