[package]
name = "judger"
version = "0.1.0"
edition = "2021"
publish = false

[dependencies]
tokio = { version = "*", features = ["rt-multi-thread", "macros", "time"] }
lapin = "*"
futures-lite = "*"
serde = { version = "*", features = ["derive"] }
serde_json = "*"
sqlx = { version = "*", default-features = false, features = ["runtime-tokio", "postgres", "uuid"] }
uuid = { version = "*", features = ["v4", "serde"] }
chrono = "*"
dotenvy = "*"
tracing = "*"
tracing-subscriber = "*"
aws-config = { version = "*", default-features = false }
aws-credential-types = "*"
aws-sdk-s3 = { version = "*", default-features = false }
