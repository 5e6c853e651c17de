[package]
name = "aes"
version = "0.1.0"
edition = "2021"
publish = false

[dependencies]
cipher = "0.5"
