[package]
name = "levitation"
version = "0.1.0"
edition = "2021"
publish = false

[dependencies]
image = "*"
opencv = "*"
serialport = { version = "*", default-features = false }
