[package]
name = "mandel"
version = "0.1.0"
edition = "2021"
publish = false

[dependencies]
bytemuck = "1"
eframe = { version = "*", default-features = false, features = ["wgpu", "x11", "default_fonts"] }
egui = "*"
