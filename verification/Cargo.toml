[package]
name = "plygui_image"
version = "0.1.0"
edition = "2021"
publish = false

[dependencies]
image = { version = "*", default-features = false }
lazy_static = "1"
