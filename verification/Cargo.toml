[package]
name = "v_upscale"
version = "0.1.0"
edition = "2021"
publish = false

[dependencies]
ash = "0.38"
image = { version = "0.25", default-features = false, features = ["png", "jpeg"] }
