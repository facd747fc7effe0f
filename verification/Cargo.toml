[package]
name = "waysight"
version = "0.1.0"
edition = "2021"
publish = false

[dependencies]
toml = "*"
serde = { version = "1", features = ["derive"] }
thiserror = "1"
tracing = "0.1"
tracing-subscriber = { version = "0.3", features = ["env-filter"] }
static_init = "1"
smithay = { version = "*", default-features = false, features = ["backend_drm", "backend_gbm", "backend_egl", "backend_libinput", "backend_session_libseat", "backend_udev", "backend_winit", "renderer_gl", "renderer_glow", "wayland_frontend"] }
smithay-drm-extras = "*"
