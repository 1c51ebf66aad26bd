[package]
name = "wave_compute"
version = "0.1.0"
edition = "2021"
publish = false

[dependencies]
anyhow = "=1.0.104"
image = { version = "=0.24.9", default-features = false, features = ["png"] }
parking_lot = "=0.12.5"
tokio = { version = "=1.54.1", features = ["rt-multi-thread", "macros", "sync"] }
tracing = "=0.1.44"
tracing-subscriber = "=0.3.23"
wgpu = "=0.14.2"
winit = "=0.27.5"

[dev-dependencies]
bytemuck = "=1.25.2"
naga = { version = "=0.10.1", features = ["wgsl-in", "validate"] }
