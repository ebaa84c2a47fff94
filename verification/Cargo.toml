[package]
name = "me_learning_opengl"
version = "0.1.0"
edition = "2021"
publish = false

[dependencies]
glow = "*"
glutin = "0.29"
image = { version = "0.25", default-features = false, features = ["png", "jpeg"] }
