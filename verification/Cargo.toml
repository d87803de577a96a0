[package]
name = "game_engine"
version = "0.1.0"
edition = "2021"
publish = false

[dependencies]
ash = "0.38"
bytemuck = { version = "1", features = ["derive"] }
env_logger = "0.11"
gltf = "1"
gpu-allocator = { version = "0.27", default-features = false, features = ["vulkan"] }
log = "0.4"
nalgebra-glm = "*"
presser = "0.3"
raw-window-handle = "0.6"
winit = "0.30"
