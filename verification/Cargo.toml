[package]
name = "weirdshark"
version = "0.1.0"
edition = "2021"
publish = false

[dependencies]
chrono = { version = "=0.4.45", features = ["serde"] }
pnet = { version = "=0.31.0", features = ["std"] }
csv = "=1.4.0"
serde = { version = "=1.0.229", features = ["derive"] }
clap = { version = "=3.2.25", features = ["derive"] }
