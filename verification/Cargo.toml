[package]
name = "shader_backend"
version = "0.1.0"
edition = "2021"
publish = false

[dependencies]
gfx-auxil = "0.8"
gfx-hal = "0.7"
shaderc = "0.7"
winit = "0.24"
