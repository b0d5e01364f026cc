[package]
name = "pixel_game_engine"
version = "0.1.0"
edition = "2021"
publish = false

[dependencies]
image = "0.23"
minifb = "0.23"
