[package]
name = "openclaw_enforce"
version = "0.1.0"
edition = "2021"
publish = false

[dependencies]
glob = "*"
path-absolutize = "*"
serde = { version = "*", features = ["derive"] }
serde_json = "*"
toml = "*"
anyhow = "*"
clap = { version = "*", features = ["derive"] }
tracing = "*"
tracing-subscriber = "*"
