[package]
name = "econfmanager"
version = "0.1.0"
edition = "2021"
publish = false

[dependencies]
rusqlite = { version = "=0.40.2", features = ["bundled", "backup"] }
base64 = "=0.23.1"
serde = { version = "=1.0.229", features = ["derive"] }
serde_json = "=1.0.151"
serde_yaml = "=0.9.34"
clap = { version = "=4.6.7", features = ["derive"] }
log = "=0.4.34"
env_logger = "=0.11.11"
chrono = "=0.4.45"
ansi_term = "=0.12.1"
parking_lot = "=0.12.5"
socket2 = "=0.6.5"
prost-reflect = "=0.16.5"
regex = "=1.13.1"
warp = { version = "=0.4.3", features = ["server", "websocket"] }
tokio = { version = "=1.53.2", features = ["full"] }
futures = "=0.3.34"
