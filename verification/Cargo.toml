[package]
name = "qcker"
version = "0.1.0"
edition = "2021"
publish = false

[dependencies]
sha2 = "0.10"
dirs = "*"
hex = "0.4"
serde = { version = "1", features = ["derive"] }
serde_json = "1"
anyhow = "1"
thiserror = "*"
clap = { version = "4", features = ["derive"] }
tokio = { version = "1", features = ["macros", "rt-multi-thread", "time"] }
tracing = "0.1"
tracing-subscriber = "0.3"
libc = "0.2"
nix = { version = "*", features = ["signal"] }
chrono = "0.4"
flate2 = "1"
tar = "0.4"
async-trait = "0.1"
crossterm = "*"
ratatui = "*"
