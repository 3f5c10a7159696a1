[package]
name = "nes_emulator"
version = "0.1.0"
edition = "2021"

[dependencies]
rand = "0.9"
sdl2 = "*"
