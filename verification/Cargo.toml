[package]
name = "fusionc"
version = "0.1.0"
edition = "2021"
publish = false

[dependencies]
clap = { version = "*", features = ["derive"] }
pest = "*"
pest_derive = "*"
