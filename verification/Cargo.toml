[package]
name = "ttyreplay"
version = "0.1.0"
edition = "2021"
publish = false

[dependencies]
flate2 = "*"
xz2 = "*"
zstd = "*"
clap = { version = "*", features = ["derive"] }
