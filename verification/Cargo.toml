[package]
name = "vk_bootstrap"
version = "0.1.0"
edition = "2021"
publish = false

[dependencies]
anyhow = "1"
log = "0.4"
vulkanalia = { version = "0.26", features = ["libloading", "window"] }
winit = "0.29"
