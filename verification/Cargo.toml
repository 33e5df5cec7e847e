[package]
name = "bxt_rs"
version = "0.1.0"
edition = "2021"
publish = false

[dependencies]
color-eyre = { version = "0.6", default-features = false }
libc = "0.2"
libloading = "0.8"
minhook-sys = "*"
