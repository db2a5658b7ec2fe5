[package]
name = "chat_dispatch"
version = "0.1.0"
edition = "2021"
publish = false

[dependencies]
futures-util = "=0.3.34"
ollama-rs = { version = "=0.3.6", features = ["stream", "tool-implementations"] }
serde = { version = "=1.0.229", features = ["derive"] }
serde_json = "=1.0.154"
tokio = { version = "=1.54.1", features = ["sync"] }
