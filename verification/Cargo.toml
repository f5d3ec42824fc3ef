[package]
name = "scene3d"
version = "0.1.0"
edition = "2021"
publish = false

[dependencies]
obj = "=0.10.2"
