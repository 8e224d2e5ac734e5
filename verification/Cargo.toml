[package]
name = "viewer_input"
version = "0.1.0"
edition = "2021"
publish = false

[dependencies]
arcball = "*"
cgmath = "*"
glium = "*"
imgui = "*"
