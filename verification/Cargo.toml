[package]
name = "johnny"
version = "0.1.0"
edition = "2021"
publish = false

[dependencies]
chrono = "=0.4.45"
owo-colors = { version = "=3.5.0", features = ["supports-colors"] }
supports-color = "=1.3.1"
strip-ansi = "=0.1.0"
rand = "=0.8.8"
rustflake = "=0.1.1"
tokio = { version = "=1.54.1", features = ["full"] }
ratatui = "=0.21.0"
crossterm = "=0.26.1"
ansi-to-tui = "=3.1.0"
poise = "=0.5.7"
serenity = "=0.11.7"
color-eyre = "=0.6.5"
serde = { version = "=1.0.229", features = ["derive"] }
toml = "=0.7.8"
sea-orm = { version = "=0.11.3", default-features = false, features = ["sqlx-sqlite", "runtime-tokio-rustls", "macros"] }
async-trait = "=0.1.92"
