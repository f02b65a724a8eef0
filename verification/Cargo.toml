[package]
name = "cosg"
version = "0.1.0"
edition = "2021"
publish = false

[dependencies]
wgpu = "22"
winit = "0.30"
pollster = "0.3"
bytemuck = { version = "1", features = ["derive"] }
