[package]
name = "rbar"
version = "0.1.0"
edition = "2021"
publish = false

[dependencies]
anyhow = "=1.0.104"
bytemuck = { version = "=1.25.2", features = ["derive"] }
smithay-client-toolkit = { version = "=0.19.2", default-features = false, features = ["calloop"] }
tokio = { version = "=1.54.1", features = ["rt-multi-thread", "macros"] }
wayland-backend = { version = "=0.3.17", features = ["client_system", "dlopen"] }
wayland-client = "=0.31.15"
wgpu = "=26.0.1"
