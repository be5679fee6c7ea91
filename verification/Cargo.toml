[package]
name = "streambed"
version = "0.5.0"
edition = "2021"
publish = false

[dependencies]
clap = "2"
dirs = "3"
env_logger = "0.7"
glib = "0.10"
gstreamer = "0.16"
gstreamer-video = "0.16"
log = "0.4"
muon-rs = "0.2"
serde = { version = "1", features = ["derive"] }
