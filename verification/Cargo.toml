[package]
name = "rnr"
version = "0.1.0"
edition = "2021"
publish = false

[dependencies]
mips = "*"
regex = "1"
clap = { version = "4", features = ["derive"] }
anyhow = "1"
