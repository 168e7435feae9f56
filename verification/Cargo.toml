[package]
name = "node_stats"
version = "0.1.0"
edition = "2021"
publish = false

[dependencies]
metrics = "0.17"
