[package]
name = "anthem"
version = "0.1.0"
edition = "2021"
publish = false

[dependencies]
rand = "=0.8.8"
serde = { version = "=1.0.229", features = ["derive"] }
serde_json = "=1.0.154"
bincode = "=1.3.3"
interprocess = "=1.2.1"
anyhow = "=1.0.104"
lazy_static = "=1.5.1"
tfc = "*"
