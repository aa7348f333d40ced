[package]
name = "tiled_mesh"
version = "0.1.0"
edition = "2021"
publish = false

[dependencies]
tiled = "0.9"
anyhow = "1.0"
