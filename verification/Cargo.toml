[package]
name = "niri_workspace"
version = "0.1.0"
edition = "2021"
publish = false

[dependencies]
approx = "0.5"
smithay = { version = "0.4", default-features = false, features = ["desktop", "wayland_frontend", "renderer_gl"] }
