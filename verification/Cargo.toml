[package]
name = "belonging"
version = "0.1.0"
edition = "2021"
publish = false

[dependencies]
nalgebra = "0.33"
sdl2 = "0.37"
gl = "0.14"
image = { version = "0.25", default-features = false, features = ["png"] }
