[package]
name = "game_engine"
version = "0.1.0"
edition = "2021"
publish = false

[dependencies]
anyhow = "=1.0.104"
bytemuck = { version = "=1.25.2", features = ["derive"] }
cgmath = "=0.18.0"
env_logger = "=0.11.11"
image = { version = "=0.25.10", default-features = false, features = ["png", "jpeg"] }
pollster = "=0.4.0"
tobj = { version = "=4.0.5", features = ["async"] }
wgpu = "=30.0.1"
winit = "=0.30.13"
