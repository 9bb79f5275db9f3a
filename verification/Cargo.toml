[package]
name = "blaze_transfer"
version = "0.1.0"
edition = "2021"
publish = false

[dependencies]
base64 = "0.13"
rust-crypto = "0.2"
serde_json = "1"
serde = { version = "1", features = ["derive"] }
serde_derive = "1"
futures = "0.3"
tokio = { version = "1", features = ["full"] }
reqwest = { version = "0.11", features = ["json"] }
rusoto_core = "0.48"
rusoto_s3 = "0.48"
