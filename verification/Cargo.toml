[package]
name = "feobank"
version = "0.1.0"
edition = "2021"
publish = false

[dependencies]
bcrypt = "=0.19.3"
chrono = { version = "=0.4.45", features = ["serde"] }
serde = { version = "=1.0.229", features = ["derive"] }
serde_json = "=1.0.154"
uuid = { version = "=1.29.1", features = ["v4", "serde"] }
tokio = { version = "=1.54.1", features = ["rt-multi-thread", "macros", "net", "io-util"] }
sqlx = { version = "=0.9.0", default-features = false, features = ["sqlite", "runtime-tokio", "chrono", "uuid"] }
dotenv = "=0.15.0"
tracing = "=0.1.44"
tracing-subscriber = "=0.3.23"
cursive = { version = "=0.21.1", default-features = false, features = ["crossterm-backend"] }
cursive_calendar_view = "=0.9.0"
human-panic = "=2.0.8"
