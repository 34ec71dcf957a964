[package]
name = "gambatee"
version = "0.1.0"
edition = "2021"
publish = false

[dependencies]
rand = "*"
chrono = "*"
serde = { version = "1", features = ["derive"] }
config = { version = "*", default-features = false, features = ["toml"] }
serenity = "*"
sqlx = { version = "*", default-features = false, features = ["runtime-tokio", "postgres", "chrono"] }
thiserror = "*"
tokio = { version = "1", features = ["macros", "rt-multi-thread", "sync"] }
tokio-cron-scheduler = "*"
tracing = "*"
tracing-subscriber = "*"
