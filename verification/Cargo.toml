[package]
name = "env_senso_rs"
version = "0.1.0"
edition = "2021"
publish = false

[dependencies]
clap = "*"
json = "*"
reqwest = { version = "*", default-features = false, features = ["blocking"] }
rppal = "*"
