[package]
name = "push_notifier"
version = "0.1.0"
edition = "2021"
publish = false

[dependencies]
chrono = "*"
dotenv = "*"
fcm = "*"
redis = "*"
serde = { version = "*", features = ["derive"] }
serde_json = "*"
serde_yaml = "*"
sqlx = { version = "*", default-features = false, features = ["mysql", "runtime-tokio", "chrono"] }
tokio = { version = "*", features = ["macros", "rt-multi-thread", "time"] }
