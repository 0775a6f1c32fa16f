[package]
name = "vk_engine"
version = "0.1.0"
edition = "2021"
publish = false

[dependencies]
ash = "0.38"
sdl2 = "0.37"
