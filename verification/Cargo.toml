[package]
name = "render_once"
version = "0.1.0"
edition = "2021"
publish = false

[dependencies]
sdl2 = { version = "*", features = ["ttf", "bundled", "static-link"] }
