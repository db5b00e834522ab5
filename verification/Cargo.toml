[package]
name = "llmrc"
version = "0.1.0"
edition = "2021"
publish = false

[dependencies]
serde_json = "1"
serde = { version = "1", features = ["derive"] }
chrono = "0.4"
tokio = { version = "1", features = ["rt-multi-thread", "net", "signal", "time", "macros", "io-util"] }
