[package]
name = "wlte"
version = "0.1.0"
edition = "2021"
publish = false

[dependencies]
anyhow = "1"
pollster = "0.3"
unicode-segmentation = "1"
vello = "0.2"
winit = "0.30"
