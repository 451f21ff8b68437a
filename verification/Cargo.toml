[package]
name = "config_updater"
version = "0.1.0"
edition = "2021"
publish = false

[dependencies]
log = "0.4"
serde = "1"
serde_json = "1"
tokio = { version = "1", default-features = false, features = ["rt", "sync", "time"] }
