[package]
name = "session_gateway"
version = "0.1.0"
edition = "2021"
publish = false

[dependencies]
axum = { version = "0.7", features = ["multipart"] }
chrono = "0.4"
cookie = "0.18"
jsonwebtoken = "9"
rand = "0.8"
serde_json = { version = "1", features = ["preserve_order"] }
tempfile = "3"
tokio = { version = "1", features = ["full"] }
tower-cookies = "0.10"
uuid = { version = "1", features = ["v4"] }
