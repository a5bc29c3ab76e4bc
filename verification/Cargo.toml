[package]
name = "healthmon"
version = "0.1.0"
edition = "2021"
publish = false

[dependencies]
uuid = { version = "*", features = ["v4"] }
chrono = "*"
tokio = { version = "*", features = ["rt-multi-thread", "macros", "time", "net", "sync"] }
axum = "*"
reqwest = { version = "*", default-features = false }
sqlx = { version = "*", default-features = false, features = ["sqlite", "runtime-tokio"] }
serde = { version = "*", features = ["derive"] }
serde_json = "*"
tower-http = { version = "*", features = ["cors", "fs"] }
tracing = "*"
tracing-subscriber = { version = "*", features = ["env-filter"] }
dotenv = "*"
once_cell = "*"
parking_lot = "*"
