[package]
name = "heating_control"
version = "0.1.0"
edition = "2021"
publish = false

[dependencies]
anyhow = "1"
embedded-svc = "*"
esp-idf-svc = "*"
log = "0.4"
micromath = "2"
rgb = "0.8"
serde = { version = "1", features = ["derive"] }
serde_json = "1"
time = { version = "0.3", features = ["serde", "serde-human-readable"] }
toml-cfg = "*"
