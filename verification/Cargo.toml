[package]
name = "prism3_core"
version = "0.1.0"
edition = "2021"
publish = false

[dependencies]
regex = "*"
serde = { version = "*", features = ["derive"] }
chrono = "*"
num-bigint = "*"
bigdecimal = "*"
