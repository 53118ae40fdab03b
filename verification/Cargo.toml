[package]
name = "game_core"
version = "0.1.0"
edition = "2021"
publish = false

[dependencies]
sdl2 = { version = "0.35", features = ["image", "ttf"] }
rodio = "0.17"
gl = "0.14"
