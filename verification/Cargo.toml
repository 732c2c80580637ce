[package]
name = "adk_realtime"
version = "0.1.0"
edition = "2021"
publish = false

[dependencies]
base64 = "=0.22.1"
serde = { version = "=1.0.229", features = ["derive"] }
serde_json = "=1.0.154"
uuid = { version = "=1.29.0", features = ["v4"] }
tokio = { version = "=1.54.1", features = ["rt", "sync", "time", "macros", "net"] }
async-trait = "=0.1.92"
thiserror = "=2.0.21"
tokio-tungstenite = { version = "=0.30.0", features = ["rustls-tls-native-roots"] }
futures = "=0.3.34"
google-cloud-auth = "=1.18.0"
