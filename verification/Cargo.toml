[package]
name = "render_core"
version = "0.1.0"
edition = "2021"
publish = false

[dependencies]
anyhow = "1"
bytemuck = { version = "1", features = ["derive"] }
cgmath = "0.18"
pollster = "0.2"
wgpu = { version = "0.10", features = ["spirv"] }
winit = "0.25"
