[package]
name = "indiefuture_template_agent"
version = "0.1.0"
edition = "2021"
publish = false

[dependencies]
serde = { version = "1", features = ["derive"] }
serde_json = "1"
reqwest = { version = "0.11", default-features = false, features = ["json"] }
ethers = { version = "2", default-features = false }
rust_decimal = { version = "1", features = ["db-tokio-postgres"] }
tokio-postgres = "0.7"
bytes = "1"
chrono = { version = "0.4", default-features = false, features = ["std", "serde"] }
actix-web = { version = "4", default-features = false, features = ["macros"] }
actix-cors = "0.7"
tokio = { version = "1", features = ["macros", "rt-multi-thread"] }
log = "0.4"
env_logger = "0.10"
dotenvy = "0.15"
