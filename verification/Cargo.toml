[package]
name = "woxel"
version = "0.1.0"
edition = "2021"
publish = false

[dependencies]
anyhow = "=1.0.104"
chrono = "=0.4.45"
dotenvy = "=0.15.7"
dptree = "=0.5.1"
regex = "=1.13.1"
reqwest = { version = "=0.12.28", default-features = false, features = ["json", "rustls-tls"] }
serde = { version = "=1.0.229", features = ["derive"] }
serde_json = "=1.0.154"
sqlx = { version = "=0.8.6", default-features = false, features = ["runtime-tokio", "sqlite", "postgres", "chrono", "migrate", "derive"] }
# Not used by the code. teloxide-core asks for takecell 0.1, and 0.1.2 needs
# rustc 1.96; this line holds it to the release that builds with rustc 1.95.
takecell = "=0.1.1"
teloxide = { version = "=0.17.0", default-features = false, features = ["macros", "ctrlc_handler", "rustls", "webhooks-axum"] }
tokio = { version = "=1.54.1", features = ["macros", "rt-multi-thread", "sync", "time"] }
tracing = "=0.1.44"
tracing-subscriber = { version = "=0.3.23", features = ["env-filter"] }
url = "=2.5.8"
