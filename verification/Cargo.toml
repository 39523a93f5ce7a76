[package]
name = "ansi-escape-sequences-cli"
version = "0.2.0"
edition = "2021"
publish = false

[dependencies]
ansi_term = "0.12"
clap = { version = "4", features = ["derive"] }
