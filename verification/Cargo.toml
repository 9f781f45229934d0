[package]
name = "zap_rs"
version = "0.1.0"
edition = "2021"
publish = false

[dependencies]
clap = { version = "=4.6.7", features = ["derive"] }
colored = "=3.1.1"
derive_more = { version = "=2.1.1", features = ["from"] }
dialoguer = { version = "=0.12.0", features = ["fuzzy-select"] }
futures-util = "=0.3.34"
indicatif = "=0.18.6"
octocrab = "=0.47.1"
reqwest = { version = "=0.13.5", features = ["stream"] }
serde = { version = "=1.0.229", features = ["derive"] }
serde_json = "=1.0.154"
tokio = { version = "=1.54.1", features = ["full"] }
