[package]
name = "mocknet"
version = "0.1.0"
edition = "2021"
publish = false

[dependencies]
tokio = { version = "=1.54.1", features = ["process", "sync", "time", "rt-multi-thread", "macros"] }
clap = "=2.34.0"
serde = { version = "=1.0.229", features = ["derive"] }
serde_json = "=1.0.154"
uuid = "=0.8.2"
chrono = "0.4"
indradb-lib = { version = "1", default-features = false }
