[package]
name = "smithay_egui"
version = "0.1.0"
edition = "2021"
publish = false

[dependencies]
egui = "0.16"
egui_glow = { version = "0.16", default-features = false }
lazy_static = "1"
slog = "2"
smithay = { version = "0.3", default-features = false, features = ["renderer_gl", "wayland_frontend"] }
