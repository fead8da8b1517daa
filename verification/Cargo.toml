[package]
name = "yclass-memflow"
version = "0.1.0"
edition = "2021"
publish = false

[dependencies]
dirs = "=5.0.1"
memflow = "=0.2.4"
serde = { version = "=1.0.229", features = ["derive"] }
toml = "=0.8.23"

[dev-dependencies]
memflow = { version = "=0.2.4", features = ["dummy_mem"] }
