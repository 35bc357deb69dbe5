[package]
name = "magician"
version = "0.1.0"
edition = "2021"
publish = false

[dependencies]
vulkano = "0.34"
vulkano-win = "0.34"
winit = "0.28"
