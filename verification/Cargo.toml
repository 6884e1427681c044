[package]
name = "engine2d"
version = "0.1.0"
edition = "2021"
publish = false

[dependencies]
hecs = "0.10"
glam = "0.29"
log = "0.4"
env_logger = { version = "0.11", default-features = false }
futures = "0.3"
bytemuck = { version = "1", features = ["derive"] }
image = { version = "0.25", default-features = false, features = ["png"] }
rodio = { version = "0.20", default-features = false, features = ["wav"] }
rapier2d = "0.22"
winit = { version = "0.30", default-features = false, features = ["x11", "rwh_06"] }
wgpu = { version = "25", default-features = false, features = ["wgsl"] }
