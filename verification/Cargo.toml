[package]
name = "catacomb"
version = "1.0.6"
edition = "2021"
publish = false

[dependencies]
calloop = "=0.14.5"
clap = { version = "=4.6.7", features = ["derive"] }
dirs = "=6.0.0"
indexmap = "=2.14.2"
libc = "=0.2.191"
serde = { version = "1", features = ["derive"] }
serde_json = "=1.0.154"
smithay = { version = "=0.7.0", default-features = false, features = ["backend_drm", "backend_egl", "backend_gbm", "renderer_gl", "wayland_frontend", "xwayland"] }
tracing = "=0.1.44"
tracing-subscriber = { version = "=0.3.23", features = ["env-filter"] }
