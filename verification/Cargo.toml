[package]
name = "doodoo_logistics"
version = "0.1.0"
edition = "2021"
publish = false

[dependencies]
uuid = { version = "1", features = ["v4", "serde"] }
chrono = { version = "0.4", features = ["serde"] }
rust_decimal = "1"
bcrypt = "*"
once_cell = "1"
serde = { version = "1", features = ["derive"] }
serde_json = "1"
async-trait = "0.1"
actix-web = { version = "4", default-features = false, features = ["macros"] }
sqlx = { version = "0.8", default-features = false, features = ["postgres", "runtime-tokio", "uuid", "chrono", "rust_decimal", "json", "derive"] }
jsonwebtoken = "9"
tracing = "0.1"
tracing-subscriber = "0.3"
dotenvy = "0.15"
