[package]
name = "rtspy"
version = "0.1.0"
edition = "2021"
publish = false

[dependencies]
anyhow = "1"
axum = { version = "0.7", features = ["ws"] }
chrono = "0.4"
crossbeam = "0.8"
futures = "0.3"
glib = "0.20"
gstreamer = "0.23"
gstreamer-app = "0.23"
gstreamer-rtsp = "0.23"
gstreamer-rtsp-server = "0.23"
gstreamer-sdp = "0.23"
gstreamer-video = "0.23"
gstreamer-webrtc = "0.23"
opencv = "*"
serde = { version = "1", features = ["derive"] }
serde_json = "1"
tokio = { version = "1", features = ["full"] }
