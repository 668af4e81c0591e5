[package]
name = "uhrwerk"
version = "0.1.0"
edition = "2021"
publish = false

[dependencies]
embedded-hal = "1"
embedded-graphics-core = "0.4"
embassy-time = "*"
log = "0.4"
