[package]
name = "token_gateway"
version = "0.1.0"
edition = "2021"
publish = false

[dependencies]
tiktoken-rs = "0.5"
axum = "0.7"
tokio = { version = "1", features = ["rt-multi-thread", "macros", "net", "sync"] }
serde = { version = "1", features = ["derive"] }
tower-http = { version = "0.5", features = ["cors"] }
tracing = "0.1"
tracing-subscriber = "0.3"
dotenv = "0.15"
