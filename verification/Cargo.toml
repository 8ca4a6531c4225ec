[package]
name = "waycore"
version = "0.1.0"
edition = "2021"
publish = false

[dependencies]
parking_lot = "*"
smithay = { version = "*", default-features = false, features = ["wayland_frontend", "backend_egl", "renderer_gl"] }
tokio = { version = "*", features = ["rt", "sync"] }
