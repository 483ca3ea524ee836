[package]
name = "data_access"
version = "0.1.0"
edition = "2021"
publish = false

[dependencies]
sqlite = "=0.37.4"
num-traits = "*"
serde = { version = "=1.0.229", features = ["derive"] }
serde_yml = "=0.0.13"
