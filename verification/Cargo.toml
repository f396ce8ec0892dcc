[package]
name = "gpu_layout"
version = "0.1.0"
edition = "2021"
publish = false

[dependencies]
glam = { version = "=0.34.1", features = ["bytemuck"] }
bytemuck = "=1.25.2"
