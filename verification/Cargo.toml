[package]
name = "bevy_resolution"
version = "0.1.0"
edition = "2021"
publish = false

[dependencies]
bevy_math = "0.15"
bevy_window = "0.15"
