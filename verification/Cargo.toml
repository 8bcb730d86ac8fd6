[package]
name = "companion_wayland"
version = "0.1.0"
edition = "2021"
publish = false

[dependencies]
libc = "0.2"
rustix = { version = "1", features = ["fs"] }
wayland-client = "0.31"
wayland-protocols-wlr = { version = "0.3", features = ["client"] }
