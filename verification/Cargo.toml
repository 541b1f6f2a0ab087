[package]
name = "polk"
version = "0.1.0"
edition = "2021"
publish = false

[dependencies]
rand = "0.8"
regex = "1"
walkdir = "2"
toml = "0.8"
serde = { version = "1", features = ["derive"] }
clap = "4"
term = "0.7"
git2 = { version = "*", default-features = false }
