[package]
name = "accessibility"
version = "0.1.0"
edition = "2021"
publish = false

[dependencies]
accessibility-sys = "*"
core-foundation = "*"
core-graphics-types = "*"
structopt = "*"
