[package]
name = "outer_colors"
version = "0.1.0"
edition = "2021"
publish = false

[dependencies]
crossterm = "*"
tokio = { version = "1", features = ["rt", "signal", "sync"] }
