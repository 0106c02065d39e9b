[package]
name = "egui_backend"
version = "0.1.0"
edition = "2021"
publish = false

[dependencies]
egui = "0.22"
egui-winit = { version = "0.22", default-features = false }
winit = "0.28"
