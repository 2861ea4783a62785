[package]
name = "row_decode"
version = "0.1.0"
edition = "2021"
publish = false

[dependencies]
chrono = { version = "0.4", default-features = false, features = ["std"] }
rust_decimal = "1"
serde = "1"
serde_json = "1"
sqlx = { version = "0.8", default-features = false, features = ["postgres", "mysql", "chrono", "rust_decimal", "uuid", "json"] }
uuid = "1"
