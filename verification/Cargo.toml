[package]
name = "config_store"
version = "0.1.0"
edition = "2021"
publish = false

[dependencies]
serde_json = "1"
log = "0.4"

[dev-dependencies]
uuid = { version = "1", features = ["v4"] }
