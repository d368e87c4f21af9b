[package]
name = "pathtracer"
version = "0.1.0"
edition = "2021"
publish = false

[dependencies]
cgmath = "0.16"
image = { version = "0.20", default-features = false, features = ["png_codec"] }
rand = "0.5"
rayon = "1"
