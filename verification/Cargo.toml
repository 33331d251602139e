[package]
name = "sbr_ffi"
version = "0.1.0"
edition = "2021"
publish = false

[dependencies]
sbr = { version = "=0.4.0", default-features = false }
bincode = "=1.3.3"
libc = "=0.2.190"
