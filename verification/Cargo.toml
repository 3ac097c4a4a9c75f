[package]
name = "chip8"
version = "0.1.0"
edition = "2021"
publish = false

[dependencies]
anyhow = "*"
minifb = "*"
rand = "*"
rodio = "*"
single_value_channel = "*"
tracing = "*"
tracing-subscriber = "*"
