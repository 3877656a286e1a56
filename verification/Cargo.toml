[package]
name = "colour_uniform"
version = "0.1.0"
edition = "2021"
publish = false

[dependencies]
image = "0.23"
gfx-hal = "0.6"
gfx-backend-vulkan = "0.6"
gfx-auxil = "*"
glsl-to-spirv = "0.1"
winit = "0.22"
cgmath = "0.18"
rgb = "0.8"
env_logger = "0.8"
