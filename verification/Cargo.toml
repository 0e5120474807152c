[package]
name = "team_swaps"
version = "0.1.0"
edition = "2021"
publish = false

[dependencies]
rusqlite = { version = "=0.41.1", features = ["bundled", "fallible_uint"] }
chrono = "=0.4.45"
serde = { version = "=1.0.229", features = ["derive"] }
poise = "=0.6.2"
