[package]
name = "chat_back"
version = "0.1.0"
edition = "2021"
publish = false

[dependencies]
uuid = { version = "1", features = ["v4", "serde"] }
tokio = { version = "1", features = ["full"] }
serde = { version = "1", features = ["derive"] }
serde_json = "1"
axum = { version = "0.6", features = ["ws", "headers"] }
tower-http = { version = "0.4", features = ["cors"] }
http = "0.2"
headers = "0.3"
futures = "0.3"
anyhow = "1"
