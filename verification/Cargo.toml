[package]
name = "mmids_core"
version = "0.1.0"
edition = "2021"
publish = false

[dependencies]
anyhow = "1"
bytes = "1"
futures = "0.3"
gstreamer = "0.18"
gstreamer-app = "0.18"
tokio = { version = "1", features = ["macros", "rt", "sync"] }
tokio-util = "0.7"
tracing = "0.1"
