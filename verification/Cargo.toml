[package]
name = "sensor_client"
version = "0.1.0"
edition = "2021"
publish = false

[dependencies]
clap = { version = "3", features = ["derive"] }
sdl2 = "0.35"
