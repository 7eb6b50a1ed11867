[package]
name = "user_repo"
version = "0.1.0"
edition = "2021"
publish = false

[dependencies]
sqlx = { version = "*", default-features = false, features = ["runtime-tokio", "sqlite", "postgres"] }
tokio = { version = "*", features = ["rt", "rt-multi-thread", "macros"] }
async-trait = "*"
