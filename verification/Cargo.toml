[package]
name = "chess_actions"
version = "0.1.0"
edition = "2021"

[dependencies]
pleco = "*"
