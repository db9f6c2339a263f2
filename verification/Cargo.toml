[package]
name = "cex_ws"
version = "0.1.0"
edition = "2021"
publish = false

[dependencies]
flate2 = "*"
url = "*"
chrono = "*"
hmac = "*"
sha2 = "*"
base64 = "*"
serde_json = "*"
tokio-tungstenite = "*"
