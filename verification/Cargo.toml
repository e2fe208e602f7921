[package]
name = "vulkan_engine"
version = "0.1.0"
edition = "2021"
publish = false

[dependencies]
anyhow = "1"
ash = "0.37"
ash-window = "0.11"
gpu-allocator = { version = "0.22", default-features = false, features = ["vulkan"] }
memoffset = "0.6"
nalgebra = "0.31"
winit = "0.27"
