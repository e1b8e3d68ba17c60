[package]
name = "boink"
version = "0.1.0"
edition = "2021"
publish = false

[dependencies]
rapier2d = "0.11"
macroquad = "0.3"
