[package]
name = "term_cube"
version = "0.1.0"
edition = "2021"
publish = false

[dependencies]
crossterm = "=0.25.0"
game-loop = "*"
