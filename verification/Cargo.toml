[package]
name = "rust_in_action"
version = "0.1.0"
edition = "2021"
publish = false

[dependencies]
clap = { version = "4", features = ["derive", "env"] }
crossbeam = "0.8"
crossterm = "0.28"
rand = "0.9"
