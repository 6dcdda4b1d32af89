[package]
name = "rust_video_playground"
version = "0.1.0"
edition = "2021"
publish = false

[dependencies]
ffmpeg-next = "5"
objc = "0.2"
objc-foundation = "0.1"
objc_id = "0.1"
