[package]
name = "pong_kernel"
version = "0.1.0"
edition = "2021"
publish = false

[dependencies]
bootloader_api = "0.11"
pc-keyboard = "*"
x86_64 = { version = "*", default-features = false, features = ["instructions"] }
