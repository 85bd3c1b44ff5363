[package]
name = "realtime_chat"
version = "0.1.0"
edition = "2021"
publish = false

[dependencies]
argon2 = "*"
bytes = "*"
futures = "*"
tokio = { version = "*", features = ["rt-multi-thread", "net", "sync", "macros", "io-util"] }
tokio-util = { version = "*", features = ["codec"] }
tracing = "*"
tracing-subscriber = "*"
