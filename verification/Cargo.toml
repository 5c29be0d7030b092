[package]
name = "graphics_env"
version = "0.1.0"
edition = "2021"
publish = false

[dependencies]
wgpu = "0.17"
winit = "0.28"
