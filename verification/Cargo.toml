[package]
name = "chunk_mesh"
version = "0.1.0"
edition = "2021"
publish = false

[dependencies]
gl = "*"
glam = "*"
glfw = "*"
image = { version = "*", default-features = false, features = ["png"] }
mlua = { version = "*", features = ["lua54", "vendored"] }
opensimplex_noise_rs = "*"
texture_packer = "*"
