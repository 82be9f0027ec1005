[package]
name = "degit"
version = "0.1.0"
edition = "2021"
publish = false

[dependencies]
clap = "2"
colored = "1"
flate2 = "1"
indicatif = "0.15"
regex = "1"
reqwest = "0.9"
tar = "0.4"
