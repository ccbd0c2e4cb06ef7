[package]
name = "bunko"
version = "0.1.0"
edition = "2021"
publish = false

[dependencies]
bincode = "1"
flate2 = "1"
serde = "1"
