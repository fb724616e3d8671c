[package]
name = "battgen"
version = "0.1.0"
edition = "2021"
publish = false

[dependencies]
clap = "2"
colored = "*"
ron = "*"
serde = { version = "1", features = ["derive"] }
