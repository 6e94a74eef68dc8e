[package]
name = "vkrender"
version = "0.1.0"
edition = "2021"
publish = false

[dependencies]
imgui = "0.12"
imgui-winit-support = "0.13"
nalgebra = "0.33"
raw-window-handle = "0.6"
sysinfo = "0.33"
vulkano = "0.35"
vulkano-shaders = "0.35"
winit = "0.30"
