[package]
name = "ai_sandbox_landlock"
version = "0.1.0"
edition = "2021"
publish = false

[dependencies]
landlock = "*"
anyhow = "*"
clap = { version = "*", features = ["derive"] }
env_logger = "*"
log = "*"
serde = { version = "*", features = ["derive"] }
serde_yaml = "*"
