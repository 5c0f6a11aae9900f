[package]
name = "gambier"
version = "0.1.0"
edition = "2021"
publish = false

[dependencies]
id-arena = "=2.3.0"
ash = "0.37"
ash-window = "=0.10.0"
winit = "=0.26.1"
gltf = "=1.4.1"
image = "=0.24.9"
nalgebra-glm = "=0.17.0"
