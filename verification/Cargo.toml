[package]
name = "libretro_frontend"
version = "0.1.0"
edition = "2021"
publish = false

[dependencies]
libc = "*"
libloading = "*"
libretro-sys = "*"
once_cell = "*"
tracing = "*"
tracing-subscriber = "*"
