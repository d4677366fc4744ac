[package]
name = "relay-docblock"
version = "0.1.0"
edition = "2021"
publish = false

[dependencies]
fnv = "1"
log = "0.4"
serde = { version = "1", features = ["derive"] }
serde_json = "1"
thiserror = "1"
tokio = { version = "1", default-features = false, features = ["sync"] }
walkdir = "2"
