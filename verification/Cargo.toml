[package]
name = "kas"
version = "0.1.0"
edition = "2021"
publish = false

[dependencies]
linear-map = "*"
smallvec = "*"
log = "*"
winit = "*"
