[package]
name = "sim"
version = "0.1.0"
edition = "2021"
publish = false

[dependencies]
rand = { version = "0.8", features = ["small_rng"] }
clap = { version = "3", features = ["derive"] }
bevy = { version = "0.7", default-features = false, features = ["render", "bevy_winit", "x11"] }
bevy_rapier2d = { version = "0.13", default-features = false, features = ["dim2"] }
