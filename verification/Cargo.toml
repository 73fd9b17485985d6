[package]
name = "vulkan_triangle"
version = "0.1.0"
edition = "2021"
publish = false

[dependencies]
nalgebra = "=0.33.3"
vulkano = "=0.34.2"
vulkano-shaders = "=0.34.0"
winit = { version = "=0.30.13", default-features = false, features = ["rwh_05", "x11"] }
