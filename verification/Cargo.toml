[package]
name = "gather"
version = "0.1.0"
edition = "2021"
publish = false

[dependencies]
chrono = "0.4"
poise = "0.6"
sqlx = { version = "0.8", features = ["runtime-tokio", "sqlite"] }
tokio = { version = "1", features = ["macros", "rt-multi-thread", "fs", "time", "sync"] }
tracing = "0.1"
tracing-subscriber = "0.3"
