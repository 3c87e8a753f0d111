[package]
name = "rusty_store"
version = "0.1.0"
edition = "2021"
publish = false

[dependencies]
bcrypt = "*"
rpassword = "*"
sqlx = { version = "*", default-features = false, features = ["sqlite", "runtime-tokio"] }
tokio = { version = "1", features = ["macros", "rt-multi-thread"] }
