[package]
name = "egl_context"
version = "0.1.0"
edition = "2021"
publish = false

[dependencies]
dpi = "0.1.2"
libloading = "*"
parking_lot = "*"
