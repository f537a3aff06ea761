[package]
name = "lecture"
version = "0.1.0"
edition = "2021"
publish = false

[dependencies]
anyhow = "1"
bitflags = "2"
chrono = "0.4"
clap = "4"
crossbeam = "0.8"
env_logger = "0.11"
futures = "0.3"
itertools = "0.13"
log = "0.4"
once_cell = "1"
parking_lot = "0.12"
rand = "0.8"
rayon = "1"
regex = "1"
reqwest = { version = "0.12", features = ["blocking", "json"] }
serde = { version = "1", features = ["derive"] }
serde_json = "1"
tempfile = "3"
thiserror = "1"
tokio = { version = "1", features = ["full"] }
tracing = "0.1"
tracing-subscriber = "0.3"
uuid = { version = "1", features = ["v4"] }
