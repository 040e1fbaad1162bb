[package]
name = "rsplay"
version = "0.1.0"
edition = "2021"
publish = false

[dependencies]
anyhow = "=1.0.104"
clap = { version = "=4.6.7", features = ["derive"] }
env_logger = "=0.11.11"
futures = "=0.3.34"
humantime-serde = "=1.1.1"
log = "=0.4.34"
reqwest = { version = "=0.13.5", default-features = false }
serde = { version = "=1.0.229", features = ["derive"] }
serde_yaml = "=0.9.34"
tokio = { version = "=1.53.2", features = ["macros", "rt-multi-thread", "sync", "time"] }
