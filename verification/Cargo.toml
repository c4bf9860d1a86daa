[package]
name = "hugo_to_json"
version = "0.1.0"
edition = "2021"
publish = false

[dependencies]
walkdir = "2"
serde_json = "1"
serde = { version = "1", features = ["derive"] }
serde_derive = "1"
thiserror = "1"
log = "0.4"
env_logger = "0.7"
structopt = "0.3"

[dev-dependencies]
tempfile = "3"
