[package]
name = "kiss3d_drm"
version = "0.1.0"
edition = "2021"
publish = false

[dependencies]
wgpu = "27"
drm = "0.14"
image = { version = "0.25", default-features = false }
glamx = "*"
log = "0.4"
