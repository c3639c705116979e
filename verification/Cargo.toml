[package]
name = "tictactoe"
version = "0.1.0"
edition = "2021"
publish = false

[dependencies]
comfy-table = { version = "=7.2.2", default-features = false }

[dev-dependencies]
chumsky = "=0.9.3"
