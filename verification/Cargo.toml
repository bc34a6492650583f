[package]
name = "mpv"
version = "0.1.0"
edition = "2021"
publish = false

[dependencies]
encoding = "0.2"
libc = "0.2"
parking_lot = "0.12"
