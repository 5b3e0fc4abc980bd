[package]
name = "dbgate"
version = "0.1.0"
edition = "2021"
publish = false

[dependencies]
rusqlite = "*"
serde_json = "*"
uuid = { version = "*", features = ["v4"] }
