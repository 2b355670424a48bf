[package]
name = "neat"
version = "0.1.0"
edition = "2021"
publish = false

[dependencies]
anyhow = "*"
clap = { version = "*", features = ["derive"] }
colored = "*"
glob = "*"
serde = { version = "*", features = ["derive"] }
toml = "*"
