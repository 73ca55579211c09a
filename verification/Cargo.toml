[package]
name = "auth_session"
version = "0.1.0"
edition = "2021"
publish = false

[dependencies]
argon2 = "=0.5.3"
base64 = "=0.22.1"
chrono = { version = "=0.4.45", features = ["serde"] }
hex = "=0.4.3"
jsonwebtoken = "=9.3.1"
rand = "=0.8.8"
serde_json = { version = "=1.0.154", features = ["preserve_order"] }
sha2 = "=0.10.9"
uuid = { version = "=1.29.0", features = ["v4", "serde"] }
serde = { version = "=1.0.229", features = ["derive"] }
thiserror = "=1.0.69"
actix-web = { version = "=4.18.1", default-features = false, features = ["macros", "cookies"] }
actix-cors = "=0.7.2"
actix-governor = "=0.5.0"
config = { version = "=0.14.1", default-features = false }
dotenvy = "=0.15.7"
futures-util = "=0.3.34"
sqlx = { version = "=0.8.6", default-features = false, features = ["runtime-tokio", "postgres", "uuid", "chrono", "migrate", "derive"] }
tracing-subscriber = { version = "=0.3.23", features = ["env-filter"] }
