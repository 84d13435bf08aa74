[package]
name = "waylanddisplaycore"
version = "0.1.0"
edition = "2021"
publish = false

[dependencies]
smithay = { version = "=0.7.0", default-features = false, features = ["wayland_frontend", "desktop", "xwayland", "renderer_gl", "backend_drm"] }
gstreamer = "=0.25.4"
gstreamer-base = "=0.25.4"
gstreamer-video = "=0.25.4"
gstreamer-allocators = "=0.25.4"
glow = "=0.17.0"
librashader = { version = "=0.12.1", default-features = false, features = ["runtime-gl"] }
once_cell = "=1.21.4"
tracing = "=0.1.44"
kstring = ">=2.0.0, <2.0.5"
