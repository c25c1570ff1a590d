[package]
name = "chess_sessions"
version = "0.1.0"
edition = "2021"
publish = false

[dependencies]
pleco = "*"
uuid = { version = "*", features = ["v4"] }
