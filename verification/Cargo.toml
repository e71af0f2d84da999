[package]
name = "grok_cli"
version = "0.1.0"
edition = "2021"
publish = false

[dependencies]
anyhow = "1"
async-trait = "0.1"
serde_json = "1"
tokio = { version = "1", features = ["process", "time", "rt", "macros"] }
