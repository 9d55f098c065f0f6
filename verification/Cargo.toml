[package]
name = "krabby"
version = "0.1.0"
edition = "2021"
publish = false

[dependencies]
indexmap = "1.9"
owo-colors = "3"
toml = { version = "0.5", features = ["preserve_order"] }
clap = { version = "4", features = ["derive", "cargo"] }
dirs = "5"
