[package]
name = "chessboard"
version = "0.1.0"
edition = "2021"
publish = false

[dependencies]
ggez = "0.5"
mint = "0.5"
nalgebra = { version = "0.18", features = ["mint"] }
