[package]
name = "klineitem"
version = "0.1.0"
edition = "2021"
publish = false

[dependencies]
chrono = { version = "0.4", default-features = false, features = ["std"] }
rust_decimal = "1"
sqlx = { version = "0.8", default-features = false, features = ["mysql", "runtime-tokio", "chrono", "rust_decimal"] }
futures = "0.3"
lazy_static = "1"
