[package]
name = "deadlinkrs"
version = "0.1.0"
edition = "2021"
publish = false

[dependencies]
ansi_term = "0.12"
clap = { version = "4", features = ["cargo"] }
globset = "0.4"
human-panic = "1"
ignore = "0.4"
regex = "1"
reqwest = { version = "0.11", features = ["blocking"] }
