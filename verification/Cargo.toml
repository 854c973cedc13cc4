[package]
name = "texture_broker"
version = "0.1.0"
edition = "2021"
publish = false

[dependencies]
glib = "0.10"
glutin = "0.26"
gstreamer = "0.16"
gstreamer-app = "0.16"
gstreamer-gl = "0.16"
gstreamer-video = "0.16"
serde = { version = "1", features = ["derive"] }
spin_sleep = "1"
