[package]
name = "pore"
version = "0.1.0"
edition = "2021"
publish = false

[dependencies]
anyhow = "=1.0.104"
atty = "=0.2.14"
chrono = "=0.4.45"
clap = "=3.2.25"
ignore = "=0.4.33"
serde = { version = "=1.0.229", features = ["derive"] }
serde_json = "=1.0.151"
tantivy = "=0.22.1"
termcolor = "=1.4.1"
toml = "=0.5.11"
