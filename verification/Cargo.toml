[package]
name = "context_budget"
version = "0.5.1"
edition = "2021"
publish = false

[dependencies]
anyhow = "1"
clap = { version = "4", features = ["derive"] }
clipboard = "0.5"
globset = "0.4"
tiktoken-rs = "*"
walkdir = "2"
