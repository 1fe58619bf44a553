[package]
name = "wavefront"
version = "0.1.0"
edition = "2021"
publish = false

[dependencies]
glam = "*"
image = "*"
serde = { version = "*", features = ["derive"] }
serde_json = "*"
