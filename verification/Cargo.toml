[package]
name = "le_word"
version = "0.1.0"
edition = "2021"
publish = false

[dependencies]
uuid = "1"
chrono = { version = "0.4", default-features = false, features = ["std"] }
tokio = { version = "1", features = ["rt", "sync"] }
serde = { version = "1", features = ["derive"] }
serde_json = "1"
tracing = "0.1"
