[package]
name = "wlcapture"
version = "0.1.0"
edition = "2021"
publish = false

[dependencies]
libc = "*"
libloading = "*"
gles31 = "*"
log = "*"
once_cell = "*"
wayland-client = "*"
wayland-protocols = { version = "*", features = ["client", "unstable"] }
wayland-protocols-wlr = { version = "*", features = ["client"] }
