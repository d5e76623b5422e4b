[package]
name = "code_core"
version = "0.1.0"
edition = "2021"
publish = false

[dependencies]
anyhow = "1"
chrono = { version = "0.4", features = ["serde"] }
futures = "0.3"
regex-lite = "0.1"
reqwest = { version = "0.12", default-features = false }
serde = { version = "1", features = ["derive"] }
serde_json = "1"
tokio = { version = "1", features = ["fs", "rt", "sync", "time", "macros"] }
toml = "0.9"
tracing = "0.1"
uuid = { version = "1", features = ["v4", "serde"] }
