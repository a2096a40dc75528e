[package]
name = "extension_sdk_mongodb"
version = "0.1.0"
edition = "2021"
publish = false

[dependencies]
bson = "=2.15.0"
serde = { version = "=1.0.229", features = ["derive"] }
serde_json = "=1.0.154"
rand = "0.8"
futures = "0.3"
tokio = { version = "1", features = ["rt-multi-thread", "macros", "time"] }
mongodb = "3"
