[package]
name = "scriptcore"
version = "0.1.0"
edition = "2021"
publish = false

[dependencies]
bstring = "*"
sdl2 = { version = "*", default-features = false }
