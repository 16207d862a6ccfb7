[package]
name = "wpe"
version = "0.1.0"
edition = "2021"
publish = false

[dependencies]
libc = "0.2"
raw-window-handle = "0.6"
serde = { version = "1", features = ["derive"] }
serde_json = "1"
softbuffer = "0.4"
thiserror = "1"
tracing = "0.1"
winit = "0.30"
x11rb = { version = "0.13", features = ["allow-unsafe-code", "shm"] }
