[package]
name = "gl_display"
version = "0.1.0"
edition = "2021"

[dependencies]
glutin = "0.19"
