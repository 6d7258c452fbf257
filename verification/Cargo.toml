[package]
name = "chromaviz"
version = "0.1.0"
edition = "2021"
publish = false

[dependencies]
rand = "*"
wgpu = "*"
glam = "*"
bytemuck = "*"
