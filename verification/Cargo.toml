[package]
name = "text_frame"
version = "0.1.0"
edition = "2021"
publish = false

[dependencies]
glium = { version = "=0.23.0", default-features = false }
glium_text = "=0.14.0"
