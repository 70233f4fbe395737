[package]
name = "channel_tools"
version = "0.1.0"
edition = "2021"
publish = false

[dependencies]
uuid = "1"
toml = "0.8"
serde = { version = "1", features = ["derive"] }
serde_json = "1"
dirs = "5"
tokio = { version = "1", default-features = false, features = ["rt"] }
