[package]
name = "beastie_cards"
version = "0.1.0"
edition = "2021"
publish = false

[dependencies]
dotenv = "0.15"
serde = { version = "1", features = ["derive"] }
serde_json = "1"
serenity = { version = "0.12", default-features = false, features = ["client", "gateway", "model", "rustls_backend"] }
tokio = { version = "1", features = ["macros", "rt-multi-thread"] }
