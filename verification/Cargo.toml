[package]
name = "lotta_app_server"
version = "0.1.0"
edition = "2021"
publish = false

[dependencies]
base64 = "0.22"
getrandom = "0.3"
serde = { version = "1", features = ["derive"] }
serde_json = "1"
chrono = "0.4"
