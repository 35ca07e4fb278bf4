[package]
name = "neskimo"
version = "0.1.0"
edition = "2021"
publish = false

[dependencies]
arrayvec = "0.7"
clap = { version = "4", features = ["cargo"] }
sdl2 = "0.37"
