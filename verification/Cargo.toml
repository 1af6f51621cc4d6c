[package]
name = "yac8"
version = "0.1.0"
edition = "2021"
publish = false

[dependencies]
rand = "*"
clap = "*"
sdl2 = "*"
log = "*"
simple_logger = "*"
