[package]
name = "nust"
version = "0.1.0"
edition = "2021"
publish = false

[dependencies]
log = "=0.4.34"
nom = "7"
sdl2 = "=0.38.0"
serde = { version = "=1.0.229", features = ["derive"] }
