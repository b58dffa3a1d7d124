[package]
name = "rustwget"
version = "0.1.0"
edition = "2021"
publish = false

[dependencies]
clap = "2"
reqwest = { version = "0.11", features = ["blocking"] }
url = "2"
