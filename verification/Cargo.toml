[package]
name = "cg_demo"
version = "0.1.0"
edition = "2021"
publish = false

[dependencies]
cgmath = "*"
gl = "*"
image = "*"
log = "*"
sdl2 = "*"
simple_logger = "*"
