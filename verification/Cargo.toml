[package]
name = "luxlib"
version = "0.1.0"
edition = "2021"
publish = false

[dependencies]
bitflags = "2"
bytemuck = { version = "1", features = ["derive"] }
cosmic-text = "0.14"
env_logger = "0.11"
glam = { version = "0.30", features = ["bytemuck"] }
glyphon = "0.9"
image = { version = "0.25", default-features = false, features = ["png"] }
log = "0.4"
once_cell = "1"
pollster = "0.4"
proc-macro2 = "1"
quote = "1"
syn = { version = "2", features = ["full"] }
thiserror = "2"
wgpu = "25"
winit = "0.30"
