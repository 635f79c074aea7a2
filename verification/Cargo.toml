[package]
name = "help_bot"
version = "0.1.0"
edition = "2021"
publish = false

[dependencies]
lru = "=0.7.8"
serde = { version = "=1.0.229", features = ["derive"] }
toml = "=0.5.11"
serenity = { version = "=0.10.10", features = ["unstable_discord_api"] }
sqlx = { version = "=0.5.13", features = ["runtime-tokio-rustls", "sqlite"] }
tokio = { version = "=1.54.1", features = ["macros", "rt-multi-thread"] }
futures = "=0.3.34"
