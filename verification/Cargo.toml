[package]
name = "exo-server"
version = "0.1.0"
edition = "2021"
publish = false

[dependencies]
anyhow = "=1.0.104"
chrono = { version = "=0.4.45", features = ["serde"] }
dirs = "=5.0.1"
futures = "=0.3.34"
serde = { version = "=1.0.229", features = ["derive"] }
serde_json = "=1.0.154"
socketcan = "=3.6.2"
ssh2 = "=0.9.6"
tokio = { version = "=1.54.1", features = ["full"] }
rocket = "=0.5.2"
rocket_ws = "=0.1.1"
