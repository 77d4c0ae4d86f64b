[package]
name = "glutin_window"
version = "0.1.0"
edition = "2021"
publish = false

[dependencies]
rustc-hash = "2"
winit = "0.30"
glutin = "0.32"
glutin-winit = "0.5"
gl = "0.14"
raw-window-handle = "0.6"
pistoncore-input = "1"
pistoncore-window = "*"
shader_version = "*"
