[package]
name = "wine_lounge"
version = "0.1.0"
edition = "2021"
publish = false

[dependencies]
chrono = "*"
rand = "*"
log = "*"
simple_logger = "*"
sdl2 = { version = "*", features = ["image", "ttf"] }
