[package]
name = "proof_relay"
version = "0.1.0"
edition = "2021"
publish = false

[dependencies]
actix-web = "4"
dotenv = "0.15"
log = "0.4"
serde = { version = "1", features = ["derive"] }
