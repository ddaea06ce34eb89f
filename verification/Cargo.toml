[package]
name = "tuition_calculator"
version = "0.1.0"
edition = "2021"
publish = false

[dependencies]
actix-web = "4"
dotenvy = "*"
rust_decimal = "1"
serde = { version = "1", features = ["derive"] }
sqlx = { version = "*", default-features = false, features = ["mysql", "runtime-tokio", "rust_decimal", "derive", "macros"] }
webbrowser = "*"
