[package]
name = "dispatch_engine"
version = "0.1.0"
edition = "2021"
publish = false

[dependencies]
tokio = { version = "1", features = ["rt", "rt-multi-thread", "sync", "time"] }
poem = "*"
poem-openapi = { version = "*", features = ["swagger-ui"] }
tracing = "0.1"
tracing-subscriber = "0.3"
