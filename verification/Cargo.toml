[package]
name = "gh_cherry"
version = "0.1.0"
edition = "2021"
publish = false

[dependencies]
anyhow = "=1.0.104"
async-trait = "=0.1.92"
chrono = { version = "=0.4.45", features = ["serde"] }
clap = { version = "=4.6.7", features = ["derive"] }
crossterm = "=0.29.0"
dirs = "=7.0.0"
git2 = { version = "=0.21.0", default-features = false }
octocrab = "=0.43.0"
ratatui = "=0.30.2"
regex = "=1.13.1"
serde = { version = "=1.0.229", features = ["derive"] }
tokio = { version = "=1.54.1", features = ["macros", "rt-multi-thread"] }
toml = "=1.1.8"
tracing = "=0.1.44"
tracing-subscriber = "=0.3.23"

[dev-dependencies]
tempfile = "=3.27.0"
