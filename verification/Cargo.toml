[package]
name = "opzioni"
version = "0.1.0"
edition = "2021"
publish = false

[dependencies]
serde = "1"
serde_json = "1"
serde_yaml = "0.9"
toml = "0.8"
tokio = { version = "1", default-features = false, features = ["sync"] }
tracing = "0.1"
