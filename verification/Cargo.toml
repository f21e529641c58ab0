[package]
name = "sangjeom"
version = "0.1.0"
edition = "2021"
publish = false

[dependencies]
sha256 = { version = "1", default-features = false }
tree_magic = "0.2"
rocket = { version = "0.5", features = ["json"] }
rocket_db_pools = { version = "*", features = ["sqlx_sqlite"] }
sqlx = { version = "*", default-features = false, features = ["sqlite"] }
tokio = { version = "1", features = ["fs", "sync", "rt"] }
anyhow = "1"
log = "0.4"
env_logger = "*"
dotenvy = "*"
serde = { version = "1", features = ["derive"] }
toml = "*"
