[package]
name = "termgrid"
version = "0.1.0"
edition = "2021"
publish = false

[dependencies]
anyhow = "1"
gl = "0.14"
glutin = "0.31"
glutin-winit = "0.4"
image = "0.24"
nalgebra = "0.32"
pyo3 = "0.20"
raw-window-handle = "0.5"
rusttype = "0.9"
thiserror = "1"
winit = { version = "0.29", features = ["rwh_05"] }
