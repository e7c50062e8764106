[package]
name = "deferred_app"
version = "0.1.0"
edition = "2021"
publish = false

[dependencies]
winit = "0.30"
wgpu = "24"
pollster = "*"
parking_lot = "*"
log = "*"
env_logger = "*"
