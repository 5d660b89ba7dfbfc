[package]
name = "sabi_wallet_backend"
version = "0.1.0"
edition = "2021"
publish = false

[dependencies]
anyhow = "*"
axum = "*"
bip39 = { version = "*", features = ["rand"] }
chrono = "*"
dotenvy = "*"
reqwest = { version = "*", default-features = false, features = ["json"] }
serde = { version = "*", features = ["derive"] }
serde_json = "*"
tokio = { version = "*", features = ["macros", "net", "rt-multi-thread"] }
tower-http = { version = "*", features = ["cors", "timeout", "trace"] }
tracing = "*"
tracing-subscriber = { version = "*", features = ["env-filter", "fmt", "json"] }
uuid = { version = "*", features = ["v7"] }
