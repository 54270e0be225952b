[package]
name = "sandbox_ui"
version = "0.1.0"
edition = "2021"
publish = false

[dependencies]
anyhow = "1"
async-trait = "0.1"
chrono = { version = "0.4", features = ["serde"] }
clap = { version = "4", features = ["derive", "env"] }
figment = { version = "0.10", features = ["yaml"] }
hex = "*"
log = "0.4"
md-5 = "*"
rocket = { version = "0.5", features = ["json"] }
rust-embed = "8"
sea-orm = { version = "1", default-features = false, features = ["macros", "sqlx-sqlite", "runtime-tokio-rustls", "with-chrono", "with-uuid"] }
sea-orm-migration = { version = "1", default-features = false, features = ["sqlx-sqlite", "runtime-tokio-rustls"] }
serde = { version = "1", features = ["derive"] }
serde_json = "1"
serde_yaml = "0.9"
sha1 = "*"
sha2 = "*"
thiserror = "1"
tokio = { version = "1", features = ["full"] }
utoipa = { version = "5", features = ["uuid", "chrono"] }
uuid = { version = "1", features = ["v4", "serde"] }
