[package]
name = "ofo_core"
version = "0.1.0"
edition = "2021"
publish = false

[dependencies]
uuid = { version = "*", features = ["v4"] }
tokio = { version = "*", features = ["macros", "rt-multi-thread", "signal", "sync", "time"] }
serde = { version = "*", features = ["derive"] }
serde_json = "*"
chrono = "*"
tracing = "*"
tracing-subscriber = "*"
