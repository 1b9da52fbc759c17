[package]
name = "raycaster"
version = "0.1.0"
edition = "2021"
publish = false

[dependencies]
ndarray = "0.15"
sdl2 = { version = "0.36", features = ["image"] }
csv = "1"
rand = "0.8"
