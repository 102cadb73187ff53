[package]
name = "chess_backend"
version = "0.1.0"
edition = "2021"
publish = false

[dependencies]
chess = "=3.2.0"
rand = "=0.8.8"
uuid = { version = "=1.27.0", features = ["v4"] }
chrono = { version = "0.4", features = ["serde"] }
serde = { version = "1", features = ["derive"] }
sqlx = { version = "0.8", default-features = false, features = ["runtime-tokio", "sqlite", "chrono"] }
tokio = { version = "1", features = ["rt-multi-thread", "macros", "process", "io-util", "time", "net"] }
axum = "0.8"
async-graphql = { version = "7", features = ["chrono"] }
async-graphql-axum = "7"
tower-http = { version = "0.6", features = ["cors"] }
tracing = "0.1"
tracing-subscriber = "0.3"
dotenv = "0.15"
