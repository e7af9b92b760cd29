[package]
name = "call_bridge"
version = "0.1.0"
edition = "2021"
publish = false

[dependencies]
base64 = "0.21"
rand = "0.8"
crossbeam-channel = "0.5"
serde = { version = "1", features = ["derive"] }
serde_json = "1"
tokio = { version = "1", features = ["full"] }
futures = "0.3"
http = "0.2"
axum = { version = "0.6", features = ["ws"] }
axum-server = { version = "0.5", features = ["tls-rustls"] }
tokio-tungstenite = { version = "0.18", features = ["rustls-tls-webpki-roots"] }
tungstenite = "0.18"
aws-config = "0.54"
aws-sdk-polly = "0.24"
