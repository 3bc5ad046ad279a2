[package]
name = "quirc"
version = "0.1.0"
edition = "2021"
publish = false

[dependencies]
libc = "0.2"
rscam = "*"
sdl = "*"
time = "0.1"
docopt = "*"
serde = { version = "1", features = ["derive"] }
