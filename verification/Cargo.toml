[package]
name = "transcribe_pool"
version = "0.1.0"
edition = "2021"
publish = false

[dependencies]
hound = "*"
uuid = { version = "*", features = ["v4"] }
axum = { version = "*", features = ["multipart"] }
futures = "*"
once_cell = "*"
serde_json = "*"
tokio = { version = "*", features = ["full"] }
tower = "*"
tower-http = { version = "*", features = ["cors", "trace"] }
tracing-subscriber = "*"
whisper-rs = "*"
