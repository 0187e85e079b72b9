[package]
name = "orange_todo"
version = "0.1.0"
edition = "2021"
publish = false

[dependencies]
anyhow = "1"
egui = { version = "=0.31.1", default-features = false }
env_logger = "=0.10.2"
log = "0.4"
postgres = "=0.19.14"
serde = { version = "1", features = ["derive"] }
thiserror = "=1.0.69"
toml = "=0.8.23"
