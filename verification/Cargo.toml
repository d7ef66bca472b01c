[package]
name = "goose_eggs"
version = "0.1.0"
edition = "2021"
publish = false

[dependencies]
regex = "1"
goose = "0.12"
