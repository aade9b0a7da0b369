[package]
name = "basicgrep"
version = "0.1.0"
edition = "2021"
publish = false

[dependencies]
regex = "1"
atty = "0.2"
