[package]
name = "i8080_emulator"
version = "0.1.0"
edition = "2021"
publish = false

[dependencies]
colored = "1"
log = "0.4"
simplelog = "0.5"
