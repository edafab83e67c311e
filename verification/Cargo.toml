[package]
name = "motor_core"
version = "0.1.0"
edition = "2021"
publish = false

[dependencies]
io-uring = "=0.7.15"
libc = "=0.2.190"
