[package]
name = "quotes"
version = "0.1.0"
edition = "2021"
publish = false

[dependencies]
uuid = { version = "=1.27.0", features = ["v4", "serde"] }
chrono = { version = "=0.4.45", features = ["serde"] }
serde = { version = "=1.0.229", features = ["derive"] }
sqlx = { version = "=0.9.0", default-features = false, features = ["postgres", "runtime-tokio", "chrono", "uuid"] }
axum = "=0.8.9"
tokio = { version = "=1.53.2", features = ["macros", "rt-multi-thread", "net"] }
