[package]
name = "benny"
version = "0.1.0"
edition = "2021"
publish = false

[dependencies]
anyhow = "*"
async-trait = "*"
axum = "*"
parking_lot = "*"
reqwest = { version = "*", default-features = false, features = ["rustls-tls"] }
serde = { version = "*", features = ["derive"] }
serde_json = "*"
serenity = "*"
sqlx = { version = "*", default-features = false, features = ["runtime-tokio", "sqlite"] }
tokio = { version = "*", features = ["rt-multi-thread", "macros", "time", "net", "fs"] }
tracing = "*"
tracing-subscriber = "*"
