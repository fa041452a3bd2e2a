[package]
name = "render_core"
version = "0.1.0"
edition = "2021"
publish = false

[dependencies]
image = { version = "*", default-features = false, features = ["png", "tiff"] }
tobj = "*"
shaderc = "*"
nalgebra-glm = "*"
