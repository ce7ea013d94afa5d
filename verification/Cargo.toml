[package]
name = "zero2prod2"
version = "0.1.0"
edition = "2021"
publish = false

[dependencies]
unicode-segmentation = "1"
axum = "0.6"
tokio = { version = "1", features = ["macros", "rt-multi-thread", "time"] }
tower = "0.4"
tracing = "0.1"
tracing-subscriber = "0.3"
sqlx = { version = "0.7", default-features = false, features = ["runtime-tokio", "postgres", "uuid", "chrono"] }
uuid = { version = "1", features = ["v4"] }
chrono = "0.4"
secrecy = "0.8"
config = "0.13"
serde = { version = "1", features = ["derive"] }
pin-project = "1"
