[package]
name = "bui"
version = "0.1.0"
edition = "2021"
publish = false

[dependencies]
bytemuck = { version = "1", features = ["derive"] }
log = "0.4"
owned_ttf_parser = "0.17"
ttf-parser = "0.17"
wgpu = "0.14"
winit = "0.27"
