[package]
name = "unifiedsinkbin"
version = "0.1.0"
edition = "2021"
publish = false

[dependencies]
gstreamer = "0.20"
gstreamer-video = "0.20"
once_cell = "1"
