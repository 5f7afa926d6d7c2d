[package]
name = "audio_capture"
version = "0.1.0"
edition = "2021"
publish = false

[dependencies]
cpal = "*"
hound = "*"
serde = { version = "*", features = ["derive"] }
serde_json = "*"
