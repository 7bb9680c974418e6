[package]
name = "ferroscope"
version = "0.1.0"
edition = "2021"
publish = false

[dependencies]
anyhow = "1"
futures = "0.3"
serde_json = "1"
tokio = { version = "1", features = ["full"] }
