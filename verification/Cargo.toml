[package]
name = "task_manager"
version = "0.1.0"
edition = "2021"
publish = false

[dependencies]
chrono = "0.4"
dotenv = "0.15"
sqlx = { version = "0.8", default-features = false, features = ["runtime-tokio", "mysql", "chrono", "derive"] }
tokio = { version = "1", features = ["macros", "rt-multi-thread"] }
