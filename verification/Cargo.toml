[package]
name = "mandelbrot"
version = "0.1.0"
edition = "2021"
publish = false

[dependencies]
anyhow = "=1.0.104"
pollster = "=0.3.0"
wgpu = { version = "=0.16.3", default-features = false }
winit = { version = "=0.28.7", default-features = false, features = ["x11"] }
