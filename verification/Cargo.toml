[package]
name = "chipy8"
version = "0.1.0"
edition = "2021"
publish = false

[dependencies]
rand = "*"
drawille = "*"
clap = { version = "*", features = ["derive"] }
crossterm = "*"
ratatui = "*"
strum = { version = "*", features = ["derive"] }
