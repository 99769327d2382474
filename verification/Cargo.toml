[package]
name = "eta"
version = "0.1.0"
edition = "2021"
publish = false

[dependencies]
color-eyre = "*"
futures = "*"
lettre = { version = "*", default-features = false, features = ["smtp-transport", "builder", "hostname", "pool", "tokio1", "tokio1-rustls-tls"] }
ratatui = "*"
serde = { version = "*", features = ["derive"] }
sqlx = { version = "*", default-features = false, features = ["runtime-tokio", "sqlite"] }
tokio = { version = "*", features = ["rt-multi-thread", "sync", "time", "macros"] }
toml = "*"
