[package]
name = "somafm"
version = "0.1.0"
edition = "2021"
publish = false

[dependencies]
anyhow = "=1.0.104"
crossterm = "=0.29.0"
env_logger = "=0.11.11"
futures-util = "=0.3.34"
log = "=0.4.34"
ratatui = "=0.30.2"
reqwest = { version = "=0.12.28", default-features = false, features = ["rustls-tls", "stream", "json"] }
rodio = "=0.22.2"
serde = { version = "=1.0.229", features = ["derive"] }
serde_json = "=1.0.151"
symphonia = { version = "=0.5.5", features = ["mp3", "aac"] }
tokio = { version = "=1.53.2", features = ["rt-multi-thread", "macros", "sync", "time"] }
tokio-util = { version = "=0.7.19", features = ["rt"] }
