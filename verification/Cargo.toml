[package]
name = "usb-display-bridge"
version = "0.1.0"
edition = "2021"
publish = false

[dependencies]
anyhow = "1"
clap = { version = "4", features = ["derive"] }
ffmpeg-next = "*"
sdl2 = "*"
tracing = "0.1"
tracing-subscriber = { version = "0.3", features = ["env-filter"] }
