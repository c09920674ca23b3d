[package]
name = "aqevia"
version = "0.2.0"
edition = "2021"
publish = false

[dependencies]
rusqlite = { version = "*", features = ["bundled"] }

[dev-dependencies]
serde_json = "*"
