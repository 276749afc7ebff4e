[package]
name = "mogcord"
version = "0.1.0"
edition = "2021"
publish = false

[dependencies]
axum = "0.7"
bson = { version = "2", features = ["chrono-0_4"] }
chrono = "0.4"
futures-util = "0.3"
mongodb = "3"
serde = { version = "1", features = ["derive"] }
tokio = { version = "1", features = ["full"] }
tower-cookies = "0.10"
