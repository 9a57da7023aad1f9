[package]
name = "dx12_encoder"
version = "0.1.0"
edition = "2021"
publish = false

[dependencies]
d3d12 = "0.4"
wgpu-types = "0.12"
winapi = { version = "0.3", features = ["d3d12", "d3dcommon", "dxgiformat", "minwindef", "winerror"] }
