[package]
name = "scene_renderer"
version = "0.1.0"
edition = "2021"
publish = false

[dependencies]
bytemuck = "1"
cgmath = "0.18"
image = { version = "0.24", default-features = false, features = ["png", "jpeg"] }
instant = "0.1"
tobj = { version = "3.2", features = ["async"] }
tracing = "0.1"
tracing-subscriber = "0.3"
wgpu = "0.14"
winit = "0.27"
