[package]
name = "growbe_mainboard"
version = "0.1.0"
edition = "2021"
publish = false

[dependencies]
regex = "1"
protobuf = "2.25"
tokio = { version = "1", features = ["rt", "sync", "time", "macros"] }
tokio-util = "0.7"
chrono = "0.4"
log = "0.4"
serde = { version = "1", features = ["derive"] }
serde_json = "1"
rusqlite = { version = "*", features = ["bundled"] }
nix = "0.26"
lazy_static = "1"
