[package]
name = "actix_web_starter"
version = "0.1.0"
edition = "2021"
publish = false

[dependencies]
chrono = "*"
actix-web = "*"
actix-files = "*"
sqlx = { version = "*", default-features = false, features = ["runtime-tokio", "sqlite"] }
tokio = { version = "*", features = ["macros", "rt-multi-thread"] }
color-eyre = "*"
dotenvy = "*"
env_logger = "*"
log = "*"
utoipa = { version = "*", features = ["actix_extras"] }
utoipa-scalar = { version = "*", features = ["actix-web"] }
serde_json = "*"
