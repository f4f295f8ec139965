[package]
name = "avy_render"
version = "0.1.0"
edition = "2021"
publish = false

[dependencies]
ash = "0.37"
skia-bindings = { version = "*", features = ["vulkan"] }
skia-safe = { version = "*", features = ["vulkan"] }
smithay-client-toolkit = "0.19"
thiserror = "1"
vulkano = "0.34"
wayland-backend = { version = "0.3", features = ["client_system", "dlopen"] }
