[package]
name = "cdumay_http_client"
version = "1.0.0"
edition = "2021"
publish = false

[dependencies]
url = "2"
base64 = "0.22"
serde = { version = "1", features = ["derive"] }
serde_json = "1"
log = "0.4"
reqwest = { version = "0.12", default-features = false, features = ["blocking"] }
