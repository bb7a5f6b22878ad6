[package]
name = "d3engine"
version = "0.1.0"
edition = "2021"
publish = false

[dependencies]
anyhow = "1"
ash = "0.38"
ash-window = "0.13"
raw-window-handle = "0.6"
winit = "0.30"
vk-mem = "0.4"
glam = "*"
memoffset = "0.9"
egui = "*"
egui-ash-renderer = "*"
