[package]
name = "divergence"
version = "0.1.0"
edition = "2021"

[dependencies]
gl = "0.14"
glium = "0.29"
sdl2 = "0.34"
