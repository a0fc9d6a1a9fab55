[package]
name = "glsprite"
version = "0.1.0"
edition = "2021"
publish = false

[dependencies]
glow = "0.6"
glutin = "0.24"
memoffset = "0.5"
