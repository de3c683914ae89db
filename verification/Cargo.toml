[package]
name = "hardback_server"
version = "0.1.0"
edition = "2021"
publish = false

[dependencies]
rand = "0.4"
itertools = "0.10"
serde = { version = "1", features = ["derive"] }
serde_json = "1"
websocket = { version = "0.26", default-features = false, features = ["sync"] }
