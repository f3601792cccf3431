[package]
name = "cargo_free"
version = "0.1.0"
edition = "2021"
publish = false

[dependencies]
ureq = "*"
clap = { version = "*", features = ["derive"] }
serde_json = "*"
terminal-log-symbols = "*"
terminal-spinners = "*"
