[package]
name = "fuzzor"
version = "0.1.0"
edition = "2021"
publish = false

[dependencies]
sha1 = "0.10"
sha2 = "0.10"
hex = "0.4"
rand = "0.8"
num_cpus = "1"
serde = { version = "1", features = ["derive"] }
serde_yaml = "0.9"
serde_with = { version = "3", features = ["base64"] }
clap = { version = "4", features = ["derive"] }
tokio = { version = "1", features = ["full"] }
log = "0.4"
env_logger = "0.11"
async-trait = "0.1"
tempfile = "3"
regex = "1"
