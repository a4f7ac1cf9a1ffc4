[package]
name = "render_harness"
version = "0.1.0"
edition = "2021"
publish = false

[dependencies]
wgpu = "0.14"
winit = "0.27"
env_logger = "0.10"
log = "0.4"
