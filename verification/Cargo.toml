[package]
name = "sunclock"
version = "0.1.0"
edition = "2021"
publish = false

[dependencies]
anyhow = "=1.0.104"
chrono = { version = "=0.4.45", features = ["serde"] }
embedded-graphics = "=0.8.2"
env_logger = "=0.10.2"
log = "=0.4.34"
reqwest = { version = "=0.12.28", default-features = false, features = ["json"] }
rppal = "=0.14.1"
serde = { version = "=1.0.229", features = ["derive"] }
tokio = { version = "=1.53.2", features = ["macros", "rt-multi-thread", "signal", "sync", "time"] }
