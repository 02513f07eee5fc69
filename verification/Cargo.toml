[package]
name = "findme"
version = "0.1.0"
edition = "2021"
publish = false

[dependencies]
anyhow = "1"
chrono = "0.4"
clap = { version = "4", features = ["derive"] }
colored = "*"
dirs = "*"
rand = "0.8"
rand_chacha = "0.3"
sha2 = "0.10"
