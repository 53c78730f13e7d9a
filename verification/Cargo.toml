[package]
name = "birbgl"
version = "0.1.0"
edition = "2021"
publish = false

[dependencies]
bytemuck = "1"
gl = "0.14"
glfw = "0.51"
