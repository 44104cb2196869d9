[package]
name = "playerlink"
version = "0.1.0"
edition = "2021"
publish = false

[dependencies]
async-osc = "*"
async-std = "*"
clap = { version = "*", features = ["derive"] }
