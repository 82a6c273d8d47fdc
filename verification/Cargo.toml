[package]
name = "denoise"
version = "0.1.0"
edition = "2021"
publish = false

[dependencies]
ff = "0.13"
nova-snark = "*"
bincode = { version = "2", features = ["serde"] }
flate2 = "1"
serde = { version = "1", features = ["derive"] }
