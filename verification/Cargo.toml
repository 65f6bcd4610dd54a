[package]
name = "sqlmate"
version = "0.1.0"
edition = "2021"
publish = false

[dependencies]
anyhow = "=1.0.100"
chrono = "=0.4.45"
csv = "=1.4.0"
dirs = "=7.0.0"
dotenvy = "=0.15.7"
futures = "=0.3.31"
rust_decimal = "=1.43.0"
serde = { version = "=1.0.228", features = ["derive"] }
serde_json = "=1.0.145"
sqlx = { version = "=0.8.6", default-features = false, features = ["runtime-tokio", "postgres", "mysql", "sqlite", "uuid", "chrono", "rust_decimal"] }
ssh2 = { version = "=0.9.6", features = ["vendored-openssl"] }
tokio = { version = "=1.53.2", features = ["rt-multi-thread", "sync", "time", "macros"] }
tokio-util = "=0.7.19"
uuid = "=1.27.0"
