[package]
name = "vertex_staging"
version = "0.1.0"
edition = "2021"
publish = false

[dependencies]
euclid = "*"
webrender_api = "*"
webrender_build = "*"
freetype = "*"
serde = { version = "1", features = ["derive"] }
