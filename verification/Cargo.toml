[package]
name = "video_recorder"
version = "0.1.0"
edition = "2021"
publish = false

[dependencies]
axum = "=0.8.9"
chrono = "=0.4.45"
env_logger = "=0.11.11"
futures = "=0.3.34"
gstreamer = "0.23"
gstreamer-app = "0.23"
log = "=0.4.34"
opencv = "=0.101.1"
serde = { version = "=1.0.229", features = ["derive"] }
tokio = { version = "=1.54.1", features = ["full"] }
toml = "=1.1.8"
