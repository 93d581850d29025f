[package]
name = "glazewm_debug"
version = "0.1.0"
edition = "2021"
publish = false

[dependencies]
unicode-width = "*"
serde = { version = "*", features = ["derive"] }
serde_json = "*"
thiserror = "*"
tokio = { version = "*", features = ["full"] }
async-trait = "*"
clap = { version = "*", features = ["derive"] }
crossterm = "*"
ratatui = "*"
tracing = "*"
tracing-subscriber = "*"
