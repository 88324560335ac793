[package]
name = "gamezap"
version = "0.1.0"
edition = "2021"
publish = false

[dependencies]
bytemuck = { version = "=1.25.2", features = ["derive"] }
env_logger = "=0.11.11"
nalgebra = "=0.35.0"
pollster = "=1.0.1"
sdl2 = { version = "=0.36.0", features = ["raw-window-handle"] }
wgpu = "=0.16.3"
