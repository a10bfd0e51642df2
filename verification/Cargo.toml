[package]
name = "enkel"
version = "0.1.0"
edition = "2021"
publish = false

[dependencies]
bytemuck = "=1.25.2"
env_logger = "0.9"
pollster = "0.2"
russimp = "1.0"
thiserror = "1"
wgpu = "0.9"
winit = "0.25"
