[package]
name = "transcript_worker"
version = "0.1.0"
edition = "2021"
publish = false

[dependencies]
serde = { version = "=1.0.229", features = ["derive"] }
serde_json = "=1.0.154"
futures = "=0.3.34"
futures-util = "=0.3.34"
tokio = { version = "=0.2.25", features = ["full"] }
tokio-tungstenite = "=0.11.0"
reqwest = { version = "=0.10.8", default-features = false, features = ["json"] }
mcai_worker_sdk = { version = "=0.11.11", features = ["media"] }
stainless-ffmpeg-sys = "=4.2.3"
