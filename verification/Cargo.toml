[package]
name = "cloud_flight"
version = "0.1.0"
edition = "2021"
publish = false

[dependencies]
clap = "4"
clokwerk = "0.4"
hidapi = "2"
ksni = "0.2"
log = "0.4"
serde = { version = "1", features = ["derive"] }
serde_json = "1"
simple_logger = "4"
