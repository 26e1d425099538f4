[package]
name = "rzen"
version = "0.1.0"
edition = "2021"
publish = false

[dependencies]
anyhow = "*"
chrono = "*"
clap = { version = "4", features = ["derive"] }
crossterm = "*"
dirs = "*"
indicatif = "*"
ratatui = "*"
reqwest = { version = "*", default-features = false }
serde = { version = "*", features = ["derive"] }
shellexpand = "*"
ssh2 = "*"
tokio = { version = "1", features = ["rt-multi-thread", "macros", "time", "sync", "process", "io-util"] }
toml = "*"
tracing = "*"
tracing-subscriber = { version = "*", features = ["env-filter"] }
