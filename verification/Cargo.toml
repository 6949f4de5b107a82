[package]
name = "logger"
version = "0.1.0"
edition = "2021"
publish = false

[dependencies]
anyhow = "=1.0.104"
serde = { version = "=1.0.229", features = ["derive"] }
tracing-subscriber = { version = "=0.3.23", features = ["env-filter"] }

[dev-dependencies]
tracing = "=0.1.44"
