[package]
name = "voice_core"
version = "0.1.0"
edition = "2021"
publish = false

[dependencies]
chrono = "=0.4.45"
cpal = "0.17"
dasp_sample = "=0.11.0"
hound = "=3.5.1"
log = "=0.4.34"
reqwest = { version = "=0.12.28", default-features = false }
serde = { version = "=1.0.229", features = ["derive"] }
tokio = { version = "=1.54.1", features = ["sync", "time"] }
