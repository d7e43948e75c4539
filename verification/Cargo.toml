[package]
name = "triangle_gl"
version = "0.1.0"
edition = "2021"
publish = false

[dependencies]
beryllium = "*"
gl33 = "*"
bytemuck = "*"
