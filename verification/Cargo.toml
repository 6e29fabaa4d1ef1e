[package]
name = "game_lib"
version = "0.1.0"
edition = "2021"
publish = false

[dependencies]
winit = "0.29"
gilrs = "0.10"
