[package]
name = "xiayu"
version = "0.1.0"
edition = "2021"
publish = false

[dependencies]
hex = "=0.4.3"
serde_json = "=1.0.154"
thiserror = "=1.0.69"
async-trait = "=0.1.92"
sqlx = { version = "=0.6.3", default-features = false, features = ["runtime-tokio-rustls", "postgres", "mysql", "sqlite", "mssql", "chrono"] }
