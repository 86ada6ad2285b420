[package]
name = "gateway_logger"
version = "0.1.0"
edition = "2021"
publish = false

[dependencies]
image = { version = "=0.25.10", default-features = false, features = ["png"] }
eframe = { version = "=0.22.0", default-features = false, features = ["glow", "default_fonts"] }
