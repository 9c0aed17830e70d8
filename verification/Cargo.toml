[package]
name = "render_core"
version = "0.1.0"
edition = "2021"
publish = false

[dependencies]
anyhow = "=1.0.104"
bytemuck = { version = "=1.25.2", features = ["derive"] }
glam = { version = "=0.20.5", features = ["bytemuck"] }
log = "=0.4.34"
tokio = { version = "=1.53.2", features = ["rt"] }
wgpu = "=0.12.0"
winit = "=0.26.1"
