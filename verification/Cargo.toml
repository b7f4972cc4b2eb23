[package]
name = "helium_address"
version = "0.1.0"
edition = "2021"
publish = false

[dependencies]
axum = "*"
bs58 = "*"
dotenv = "*"
lazy_static = "*"
pretty_env_logger = "*"
serde = { version = "*", features = ["derive"] }
sha2 = "*"
tokio = { version = "*", features = ["macros", "net", "rt-multi-thread"] }

[dev-dependencies]
helium-crypto = "*"
spl-token = { version = "*", features = ["no-entrypoint"] }
