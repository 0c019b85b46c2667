[package]
name = "vst3_view"
version = "0.1.0"
edition = "2021"
publish = false

[dependencies]
crossbeam = "0.8"
libc = "0.2"
parking_lot = "0.12"
atomic_float = "*"
vst3 = "*"
