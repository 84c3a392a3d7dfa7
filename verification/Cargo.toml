[package]
name = "torresmo"
version = "0.1.0"
edition = "2021"
publish = false

[dependencies]
time = { version = "*", features = ["std"] }
rand = "*"
num-traits = "*"
