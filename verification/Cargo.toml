[package]
name = "ritmo"
version = "0.1.0"
edition = "2021"
publish = false

[dependencies]
axum = "0.8"
crossterm = "0.28"
dotenv = "0.15"
ratatui = "0.29"
serde = { version = "1", features = ["derive"] }
serde_json = "1"
sqlx = { version = "0.8", default-features = false, features = ["sqlite", "runtime-tokio"] }
tera = { version = "1", default-features = false }
tokio = { version = "1", features = ["rt-multi-thread", "macros", "net"] }
