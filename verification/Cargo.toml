[package]
name = "jgame"
version = "0.1.0"
edition = "2021"
publish = false

[dependencies]
bevy_ecs = "*"
gl = "*"
glam = "*"
glfw = "*"
image = { version = "*", default-features = false, features = ["png"] }
once_cell = "*"
tracing = "*"
