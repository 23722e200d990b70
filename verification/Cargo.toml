[package]
name = "lykoi"
version = "0.1.0"
edition = "2021"
publish = false

[dependencies]
lykoi_gl = "*"
gl = "*"
cgmath = "*"
