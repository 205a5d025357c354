[package]
name = "giphy_app"
version = "0.1.0"
edition = "2021"
publish = false

[dependencies]
actix-files = "=0.6.10"
actix-web = { version = "=4.18.1", default-features = false, features = ["macros"] }
base64 = "=0.23.1"
bcrypt = "=0.19.3"
chrono = "=0.4.45"
envy = "=0.4.2"
jsonwebtoken = "=9.3.1"
reqwest = { version = "=0.12.28", default-features = false, features = ["json"] }
seed = { version = "=0.10.0", features = ["routing"] }
serde = { version = "=1.0.229", features = ["derive"] }
serde_json = "=1.0.154"
sqlx = { version = "=0.8.6", default-features = false, features = ["postgres", "runtime-tokio"] }
tracing = "=0.1.44"
tracing-subscriber = "=0.3.23"
uuid = { version = "=0.8.2", features = ["v4"] }
validator = "=0.16.1"
