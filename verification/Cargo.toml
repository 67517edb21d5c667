[package]
name = "user_service"
version = "0.1.0"
edition = "2021"
publish = false

[dependencies]
actix-web = "4"
async-trait = "0.1"
chrono = { version = "0.4", features = ["serde"] }
config = "0.13"
dirs = "5"
env_logger = "0.10"
erased-serde = "0.3"
log = { version = "0.4", features = ["serde"] }
sea-orm = { version = "0.12", features = ["sqlx-sqlite", "runtime-tokio-rustls", "macros", "with-uuid"] }
serde = { version = "1", features = ["derive"] }
serde-aux = "4"
serde_json = "1"
serde_yaml = "0.9"
thiserror = "1"
tokio = { version = "1", features = ["macros", "rt-multi-thread"] }
utoipa = { version = "4", features = ["actix_extras", "uuid"] }
utoipa-swagger-ui = { version = "6", features = ["actix-web"] }
uuid = { version = "1", features = ["v4", "serde"] }
