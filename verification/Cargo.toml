[package]
name = "ordhook_config"
version = "0.1.0"
edition = "2021"
publish = false

[dependencies]
chainhook-types = "*"
num_cpus = "1"
serde = { version = "1", features = ["derive"] }
