[package]
name = "one_fm"
version = "0.1.0"
edition = "2021"
publish = false

[dependencies]
chrono = "0.4"
num-format = "0.4"
unicode-width = "0.2"
ratatui = "0.29"
crossterm = "0.28"
