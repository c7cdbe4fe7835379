[package]
name = "scene_graph"
version = "0.1.0"
edition = "2021"
publish = false

[dependencies]
glam = "*"
anyhow = "*"
bytemuck = { version = "*", features = ["derive"] }
gltf = { version = "*", features = ["import"] }
image = { version = "*", default-features = false, features = ["png"] }
pollster = "*"
tobj = "*"
wgpu = "*"
winit = "*"
