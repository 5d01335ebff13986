[package]
name = "snake_core"
version = "0.1.0"
edition = "2021"
publish = false

[dependencies]
agb = "=0.20.5"
