[package]
name = "lorawan_device"
version = "0.1.0"
edition = "2021"
publish = false

[dependencies]
heapless = "=0.8.0"
lorawan = "=0.9.0"
