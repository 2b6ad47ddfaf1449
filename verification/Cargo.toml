[package]
name = "dbee_core"
version = "0.1.0"
edition = "2021"
publish = false

[dependencies]
sqlx = { version = "*", default-features = false, features = ["runtime-tokio", "postgres", "chrono", "uuid", "json"] }
serde = { version = "*", features = ["derive"] }
serde_json = "*"
urlencoding = "*"
uuid = { version = "*", features = ["v4"] }
chrono = "*"
tokio = { version = "*", default-features = false, features = ["rt", "sync", "macros"] }
dirs = "*"
reqwest = { version = "*", default-features = false, features = ["json"] }
