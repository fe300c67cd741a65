[package]
name = "light_house"
version = "0.1.0"
edition = "2021"
publish = false

[dependencies]
async-trait = "0.1"
bcrypt = "0.17"
chrono = { version = "0.4", features = ["serde"] }
dotenvy = "0.15"
jsonwebtoken = "9"
log = "0.4"
rand = "0.9"
rocket = { version = "0.5", features = ["json"] }
rust_decimal = "1"
rust_decimal_macros = "1"
sea-orm = { version = "1", default-features = false, features = ["macros", "sqlx-mysql", "runtime-tokio-rustls", "with-uuid", "with-chrono", "with-rust_decimal"] }
sea-orm-migration = { version = "1", default-features = false, features = ["sqlx-mysql", "runtime-tokio-rustls"] }
serde = { version = "1", features = ["derive"] }
serde_json = "1"
thiserror = "2"
tracing = "0.1"
tracing-subscriber = "0.3"
utoipa = "5"
uuid = { version = "1", features = ["v4", "v7"] }
validator = { version = "0.20", features = ["derive"] }
