[package]
name = "levels"
version = "0.1.0"
edition = "2021"
publish = false

[dependencies]
async-trait = "=0.1.92"
chrono = "=0.4.45"
futures = "=0.3.34"
rand = "=0.9.5"
serenity = { version = "=0.12.5", features = ["collector"] }
sqlx = { version = "=0.8.6", default-features = false, features = ["any", "derive", "chrono", "runtime-tokio"] }
