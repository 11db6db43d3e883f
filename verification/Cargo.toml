[package]
name = "game_loop"
version = "0.1.0"
edition = "2021"
publish = false

[dependencies]
winit = "0.30"
