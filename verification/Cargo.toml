[package]
name = "ellie"
version = "0.1.0"
edition = "2021"
publish = false

[dependencies]
byte-unit = "=4.0.19"
chrono = "=0.4.45"
humantime = "=2.4.0"
percent-encoding = "=2.3.2"
itertools = "=0.15.0"
log = "=0.4.35"
tracing = "=0.1.44"
serde = { version = "=1.0.229", features = ["derive"] }
serde_json = "=1.0.154"
reqwest = { version = "=0.11.27", default-features = false, features = ["json", "rustls-tls"] }
tokio = { version = "=1.54.1", features = ["macros", "rt-multi-thread"] }
serenity = { version = "=0.12.5", features = ["unstable_discord_api"] }
sqlx = { version = "=0.7.4", features = ["runtime-tokio", "postgres"] }
lastfm-rs = "=0.5.0"
aspotify = "=0.7.1"
git2 = { version = "=0.18.3", default-features = false }
