[package]
name = "eejit"
version = "0.1.0"
edition = "2021"
publish = false

[dependencies]
shellwords = "*"
textwrap = "*"
anyhow = "*"
serde = { version = "*", features = ["derive"] }
toml = "*"
tempfile = "*"
tokio = { version = "*", features = ["rt-multi-thread", "process", "io-util", "sync", "macros", "net", "time"] }
log = "*"
