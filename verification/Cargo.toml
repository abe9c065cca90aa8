[package]
name = "wikipedia_network"
version = "0.1.0"
edition = "2021"
publish = false

[dependencies]
url = "*"
petgraph = "*"
reqwest = { version = "*", default-features = false, features = ["blocking"] }
