[package]
name = "guesser_game"
version = "0.1.0"
edition = "2021"
publish = false

[dependencies]
dotenv = "0.15"
env_logger = "0.10"
envy = "0.4"
hex = "0.4"
log = "0.4"
mongodb = "2"
rocket = { version = "0.5", features = ["json"] }
serde = { version = "1", features = ["derive"] }
serde_json = "1"
sha3 = "0.10"
uuid = { version = "1", features = ["v4", "serde"] }
