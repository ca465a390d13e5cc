[package]
name = "cita_pipeline"
version = "0.1.0"
edition = "2021"
publish = false

[dependencies]
uuid = { version = "*", features = ["v4"] }
clap = "2"
toml = "0.4"
serde = { version = "1", features = ["derive"] }
serde_json = "1"
log = "0.4"
