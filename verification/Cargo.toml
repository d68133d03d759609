[package]
name = "profile_counter"
version = "0.1.0"
edition = "2021"
publish = false

[dependencies]
actix-rt = "=1.1.1"
actix-web = "=2.0.0"
chrono = "=0.4.19"
env_logger = "=0.7.1"
sqlx = { version = "=0.3.5", default-features = false, features = ["postgres", "chrono", "runtime-tokio"] }
svg = "=0.8.2"
