[package]
name = "codex_processor"
version = "0.1.0"
edition = "2021"
publish = false

[dependencies]
schemars = "0.8"
serde = { version = "1", features = ["derive"] }
serde_json = "1"
ts-rs = "11"
uuid = { version = "1", features = ["v4"] }
