[package]
name = "moq_gst"
version = "0.1.0"
edition = "2021"
publish = false

[dependencies]
anyhow = "1"
bytes = "=1.12.1"
gstreamer = "=0.23.7"
gstreamer-base = "=0.23.6"
hang = "=0.9.1"
moq-native = "0.10.1"
once_cell = "1"
tokio = { version = "1", features = ["rt-multi-thread", "sync", "macros", "time", "net"] }
url = "=2.5.8"
