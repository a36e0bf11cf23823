[package]
name = "deimos"
version = "0.1.0"
edition = "2021"
publish = false

[dependencies]
anyhow = "1"
cgmath = "0.18"
log = "0.4"
png = "0.17"
tobj = "3"
vulkanalia = { version = "0.22", features = ["libloading", "provisional", "window"] }
winit = "0.28"
