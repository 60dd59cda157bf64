[package]
name = "geocache"
version = "0.1.0"
edition = "2021"
publish = false

[dependencies]
base64 = "0.13"
dotenvy = "0.15"
mongodb = "2"
reqwest = { version = "0.11", features = ["json"] }
rocket = { version = "0.5", features = ["json"] }
serde = { version = "1", features = ["derive"] }
serde_json = "1"
