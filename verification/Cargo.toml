[package]
name = "gotify_client"
version = "0.1.0"
edition = "2021"
publish = false

[dependencies]
url = "=2.5.8"
serde = { version = "=1.0.229", features = ["derive"] }
serde_json = "=1.0.154"
futures-util = { version = "=0.3.34", default-features = false, features = ["std"] }
tokio = { version = "=1.54.1", features = ["rt", "time", "macros"] }
tokio-tungstenite = { version = "=0.30.0", default-features = false, features = ["connect", "handshake", "native-tls"] }
image = { version = "=0.25.10", default-features = false, features = ["png"] }
