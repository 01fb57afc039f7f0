[package]
name = "rayvox"
version = "0.1.0"
edition = "2021"
publish = false

[dependencies]
rand = "0.8"
vulkano = "0.33"
vulkano-shaders = "0.33"
vulkano-util = "0.33"
vulkano-win = "0.33"
winit = "0.28"
