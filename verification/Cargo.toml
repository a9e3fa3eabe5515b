[package]
name = "staff_users"
version = "0.1.0"
edition = "2021"
publish = false

[dependencies]
actix-web = { version = "4", default-features = false, features = ["macros"] }
chrono = { version = "0.4", default-features = false, features = ["clock"] }
dotenv = "0.15"
futures-util = { version = "0.3", default-features = false, features = ["std"] }
jsonwebtoken = "9"
listenfd = "1"
log = "0.4"
rdkafka = "0.36"
serde = { version = "1", features = ["derive"] }
serde_json = "1"
sqlx = { version = "0.8", default-features = false, features = ["postgres", "runtime-tokio", "derive"] }
tokio = { version = "1", features = ["rt-multi-thread"] }
