[package]
name = "lowpoly"
version = "0.1.0"
edition = "2021"
publish = false

[dependencies]
clap = { version = "4", features = ["derive"] }
delaunator = "1"
rand = "0.8"
svg = "*"
