[package]
name = "relsim"
version = "0.1.0"
edition = "2021"
publish = false

[dependencies]
ash = "0.31"
winit = "0.22"
num = "0.3"
rustbitmap = "*"
static_assertions = "1"
