[package]
name = "evaluator"
version = "0.1.0"
edition = "2021"
publish = false

[dependencies]
anyhow = "=1.0.104"
clap = { version = "=4.6.7", features = ["derive"] }
env_logger = "=0.11.11"
log = "=0.4.34"
pgn-reader = "=0.22.0"
rand = { version = "=0.8.8", features = ["small_rng"] }
serde = { version = "=1.0.229", features = ["derive"] }
serde_json = "=1.0.154"
shakmaty = "=0.23.1"
tokio = { version = "=1.54.1", features = ["process", "io-util", "rt-multi-thread"] }
vampirc-uci = "=0.11.1"
