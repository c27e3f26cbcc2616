[package]
name = "chunkworld"
version = "0.1.0"
edition = "2021"
publish = false

[dependencies]
bytemuck = { version = "*", features = ["derive"] }
cgmath = "*"
env_logger = "*"
glium = "*"
image = { version = "*", default-features = false, features = ["png"] }
log = "*"
nalgebra = "*"
pollster = "*"
wgpu = "*"
winit = "*"
