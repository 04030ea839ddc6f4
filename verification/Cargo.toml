[package]
name = "mosql"
version = "0.1.0"
edition = "2021"
publish = false

[dependencies]
case_converter = "*"
chrono = "0.4"
serde = { version = "1", features = ["derive"] }
serde_json = "1"
mongodb = "2"
sea-orm = { version = "0.12", features = ["sqlx-sqlite", "runtime-tokio-rustls", "macros"] }
sqlx = { version = "0.7", features = ["postgres", "runtime-tokio-rustls"] }
tokio = { version = "1", features = ["macros", "rt-multi-thread"] }
structopt = "0.3"
