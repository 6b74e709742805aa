[package]
name = "exgate"
version = "0.1.0"
edition = "2021"
publish = false

[dependencies]
base64 = "*"
chrono = { version = "*", default-features = false, features = ["clock"] }
confy = "*"
env_logger = "*"
hex = "*"
hmac = "*"
log = "*"
reqwest = { version = "*", default-features = false }
serde = { version = "*", features = ["derive"] }
serde_json = "*"
sha2 = "*"
tokio = { version = "*", features = ["macros", "rt-multi-thread"] }
url = "*"
