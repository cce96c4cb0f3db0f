[package]
name = "content_backend"
version = "0.1.0"
edition = "2021"
publish = false

[dependencies]
actix-files = "0.6"
actix-multipart = "0.6"
actix-web = { version = "4", default-features = false, features = ["macros"] }
bcrypt = "0.15"
chrono = { version = "0.4", features = ["serde"] }
diesel = { version = "2", features = ["postgres", "r2d2", "chrono"] }
dotenvy = "0.15"
futures-util = "0.3"
jsonwebtoken = "9"
regex = "1"
serde = { version = "1", features = ["derive"] }
serde_json = "1"
