[package]
name = "riprs"
version = "0.1.0"
edition = "2021"

[dependencies]
nom = "7"
flagset = "*"
sdl2 = "*"
