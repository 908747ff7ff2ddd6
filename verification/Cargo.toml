[package]
name = "emoji_links"
version = "0.1.0"
edition = "2021"
publish = false

[dependencies]
actix-web = { version = "4", default-features = false, features = ["macros"] }
chrono = { version = "0.4", default-features = false, features = ["clock"] }
dotenv = "0.15"
fancy-regex = "0.11"
image = { version = "0.24", default-features = false, features = ["png"] }
lazy_static = "1"
qrcode = { version = "0.13", default-features = false, features = ["image"] }
rand = "0.8"
redis = { version = "0.23", default-features = false, features = ["aio", "tokio-comp"] }
serde = { version = "1", features = ["derive"] }
serde_json = "1"
sha2 = "0.10"
sqlx = { version = "0.7", default-features = false, features = ["postgres", "runtime-tokio", "json", "time"] }
time = "0.3"
validator = { version = "0.16", features = ["derive"] }
