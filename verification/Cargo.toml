[package]
name = "sncast"
version = "0.1.0"
edition = "2021"
publish = false

[dependencies]
anyhow = "=1.0.104"
camino = { version = "=1.2.6", features = ["serde1"] }
clap = { version = "=4.6.7", features = ["derive"] }
itertools = "=0.12.1"
serde = { version = "=1.0.229", features = ["derive"] }
starknet = "=0.17.0"
starknet-types-core = "=0.2.4"
