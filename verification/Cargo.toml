[package]
name = "pcm_extract"
version = "0.1.0"
edition = "2021"
publish = false

[dependencies]
clap = { version = "4", features = ["derive"] }
ffmpeg-next = "*"
thiserror = "1"
whisper-rs = "*"
