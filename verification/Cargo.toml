[package]
name = "screen_zoom"
version = "0.1.0"
edition = "2021"
publish = false

[dependencies]
gl = "0.14"
glm = "0.2"
sdl2 = "0.35"
sdl2-sys = "0.35"
