[package]
name = "tes_cli"
version = "0.1.0"
edition = "2021"
publish = false

[dependencies]
clap = "3.2"
env_logger = "0.10"
log = "0.4"
serde_json = "1"
tokio = { version = "1", features = ["macros", "rt-multi-thread"] }
url = "2"
