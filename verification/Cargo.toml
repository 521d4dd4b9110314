[package]
name = "glorp"
version = "0.1.0"
edition = "2021"
publish = false

[dependencies]
base64 = "0.21"
rmp-serde = "1"
serde = { version = "1", features = ["derive"] }
serde_json = "1"
