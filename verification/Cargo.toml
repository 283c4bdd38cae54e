[package]
name = "codepack"
version = "0.1.0"
edition = "2021"
publish = false

[dependencies]
anyhow = "1"
clap = { version = "4", features = ["derive"] }
globset = "0.4"
ignore = "0.4"
indicatif = "0.17"
log = "0.4"
prettytable-rs = "0.10"
