[package]
name = "qa_store"
version = "0.1.0"
edition = "2021"
publish = false

[dependencies]
sqlx = { version = "*", default-features = false, features = ["postgres", "runtime-tokio", "uuid", "time"] }
axum = { version = "*" }
tokio = { version = "*", features = ["macros", "rt-multi-thread", "net"] }
serde = { version = "*", features = ["derive"] }
thiserror = { version = "*" }
async-trait = { version = "*" }
dotenvy = { version = "*" }
pretty_env_logger = { version = "*" }
