[package]
name = "audio_recorder"
version = "0.1.0"
edition = "2021"
publish = false

[dependencies]
anyhow = "*"
cpal = "*"
crossbeam-channel = "*"
dasp_sample = "*"
rubato = "*"
serde = { version = "*", features = ["derive"] }
serde_json = "*"
