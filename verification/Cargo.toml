[package]
name = "neovideo"
version = "0.1.0"
edition = "2021"
publish = false

[dependencies]
egui = "=0.19.0"
egui_glow = { version = "=0.19.0", features = ["winit"] }
glow = "=0.11.2"
glutin = "=0.29.1"
winit = "=0.27.5"
libc = "=0.2.190"
