[package]
name = "stellar_remit"
version = "0.1.0"
edition = "2021"
publish = false

[dependencies]
serde_json = "=1.0.151"
stellar-base = "=0.7.0"
reqwest = { version = "=0.13.5", default-features = false, features = ["form", "json"] }
tokio = { version = "=1.53.2", features = ["macros", "rt-multi-thread", "time"] }
axum = "=0.8.9"
prometheus = "=0.14.0"
lazy_static = "=1.5.1"
clap = { version = "=4.6.7", features = ["derive"] }
anyhow = "=1.0.104"
dotenvy = "=0.15.7"
tracing = "=0.1.44"
tracing-subscriber = "=0.3.23"
