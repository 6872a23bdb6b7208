[package]
name = "cells_renderer"
version = "0.1.0"
edition = "2021"
publish = false

[dependencies]
line_drawing = "1"
rand = "0.9"
anyhow = "1"
bytemuck = { version = "1", features = ["derive"] }
futures = "0.3"
wgpu = "24"
winit = "0.30"
