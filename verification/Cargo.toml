[package]
name = "mint_core"
version = "0.1.0"
edition = "2021"
publish = false

[dependencies]
anyhow = "*"
chrono = "=0.4.45"
clap = { version = "*", features = ["derive"] }
dirs = "=7.0.0"
futures = "*"
futures-util = "*"
indicatif = "*"
num_cpus = "=1.17.0"
reqwest = { version = "*", default-features = false, features = ["json", "stream"] }
serde = { version = "*", features = ["derive"] }
serde_json = "*"
tokio = { version = "*", features = ["rt-multi-thread", "macros", "time"] }
toml = "*"
tracing = "*"
tracing-subscriber = "*"
