[package]
name = "authkit"
version = "0.1.0"
edition = "2021"
publish = false

[dependencies]
sha2 = "*"
hex = "*"
clap = { version = "*", features = ["derive", "env"] }
colored = "*"
dialoguer = "*"
indicatif = "*"
serde = { version = "*", features = ["derive"] }
serde_json = "*"
sqlx = { version = "*", default-features = false, features = ["runtime-tokio", "any", "sqlite", "postgres"] }
tabled = "*"
thiserror = "*"
tokio = { version = "*", features = ["macros", "rt-multi-thread"] }
toml = "*"
chrono = "*"
