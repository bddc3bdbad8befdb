[package]
name = "monet"
version = "0.1.0"
edition = "2021"
publish = false

[dependencies]
iso4217 = "*"
csv = "*"
toml = "*"
serde = { version = "*", features = ["derive"] }
