[package]
name = "subscriber_intake"
version = "0.1.0"
edition = "2021"
publish = false

[dependencies]
actix-web = { version = "*", default-features = false }
chrono = { version = "*", default-features = false, features = ["clock"] }
config = { version = "*", default-features = false, features = ["yaml"] }
reqwest = { version = "*", default-features = false, features = ["json"] }
secrecy = { version = "*", features = ["serde"] }
serde = { version = "*", features = ["derive"] }
serde_json = "*"
sqlx = { version = "*", default-features = false, features = ["runtime-tokio", "postgres", "uuid", "chrono"] }
tracing = "*"
unicode-segmentation = "*"
url = "*"
uuid = { version = "*", features = ["v4"] }
