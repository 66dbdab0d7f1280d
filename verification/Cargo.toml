[package]
name = "red"
version = "0.1.0"
edition = "2021"
publish = false

[dependencies]
shaderc = "0.6"
wgpu = "0.5"
winit = "0.22"
