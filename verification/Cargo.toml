[package]
name = "rustychef"
version = "0.1.0"
edition = "2021"
publish = false

[dependencies]
sqlite = "*"
json = "*"
clap = "*"
reqwest = { version = "*", default-features = false, features = ["blocking"] }
