[package]
name = "webrtc_audio_streamer"
version = "0.1.0"
edition = "2021"
publish = false

[dependencies]
tokio = { version = "=1.54.1", features = ["sync", "rt", "rt-multi-thread", "macros", "time"] }
webrtc = "=0.14.0"
