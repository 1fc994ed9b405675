[package]
name = "logana"
version = "0.1.0"
edition = "2021"
publish = false

[dependencies]
regex = "1"
crossterm = "*"
ratatui = "*"
async-trait = "*"
clap = { version = "4", features = ["derive"] }
