[package]
name = "logy"
version = "0.1.0"
edition = "2021"
publish = false

[dependencies]
chrono = "=0.4.45"
crossterm = "=0.25.0"
once_cell = "=1.21.4"
