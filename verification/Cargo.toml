[package]
name = "chatbot_backend"
version = "0.1.0"
edition = "2021"
publish = false

[dependencies]
axum = "0.7"
printpdf = "0.7"
serde = { version = "1", features = ["derive"] }
tokio = { version = "1", features = ["full"] }
tower-http = { version = "0.5", features = ["fs"] }
tracing = "0.1"
tracing-subscriber = "0.3"
uuid = { version = "1", features = ["v4"] }
