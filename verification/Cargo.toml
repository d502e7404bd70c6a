[package]
name = "socket_tunnel"
version = "0.1.0"
edition = "2021"
publish = false

[dependencies]
anyhow = "*"
axum = { version = "*", features = ["ws"] }
base64 = "*"
bytes = "*"
futures-util = "*"
http = "*"
hyper = "*"
hyper-util = { version = "*", features = ["client-legacy", "http1", "tokio"] }
serde = { version = "*", features = ["derive"] }
serde_json = "*"
tokio = { version = "*", features = ["full"] }
tokio-tungstenite = "*"
tokio-util = "*"
tracing = "*"
tracing-subscriber = { version = "*", features = ["env-filter"] }
uuid = { version = "*", features = ["v4"] }
