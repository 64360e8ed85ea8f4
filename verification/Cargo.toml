[package]
name = "nokhwa"
version = "0.1.0"
edition = "2021"
publish = false

[dependencies]
mozjpeg = "0.9"
v4l = "*"
uvc = "*"
nokhwa-bindings-windows = "*"
