[package]
name = "snake"
version = "0.1.0"
edition = "2021"
publish = false

[dependencies]
anyhow = "1"
console = "0.15"
rand = "0.8"
terminal_size = "*"
