[package]
name = "glutton"
version = "0.1.0"
edition = "2021"
publish = false

[dependencies]
blake2 = "0.10"
log = "0.4"
serde = { version = "1", features = ["derive"] }
sp-arithmetic = "*"
sp-weights = "*"
