[package]
name = "burn_python"
version = "0.1.0"
edition = "2021"
publish = false

[dependencies]
burn-backend = "=0.21.0"
burn-flex = "=0.21.0"
onnx-ir = "=0.21.0"
cubecl-common = "=0.10.0"
bytemuck = "=1.25.2"
pyo3 = "0.26"
numpy = "0.26"
