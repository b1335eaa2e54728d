[package]
name = "quantify_data"
version = "0.1.0"
edition = "2021"
publish = false

[dependencies]
chrono = "0.4"
serde_json = "1"
serde = { version = "1", features = ["derive"] }
reqwest = { version = "0.11", default-features = false, features = ["rustls-tls"] }
mongodb = "2"
tokio = { version = "1", features = ["rt-multi-thread", "macros"] }
futures = "0.3"
async-trait = "0.1"
tonic = "0.9"
clap = { version = "4", features = ["derive"] }
env_logger = "0.10"
log = "0.4"
