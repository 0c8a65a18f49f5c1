[package]
name = "gate_opener"
version = "0.1.0"
edition = "2021"
publish = false

[dependencies]
anyhow = "1"
embassy-futures = "*"
embassy-time = "*"
embedded-svc = "*"
esp-idf-hal = "*"
esp-idf-svc = "*"
log = "0.4"
serde = { version = "1", features = ["derive"] }
serde_json = "1"
