[package]
name = "cityissue"
version = "0.1.0"
edition = "2021"
publish = false

[dependencies]
argon2 = "0.5"
password-hash = { version = "0.5", features = ["getrandom"] }
uuid = { version = "1", features = ["v4"] }
chrono = "0.4"
actix-web = "4"
jsonwebtoken = "9"
once_cell = "1"
rusqlite = { version = "0.31", features = ["bundled"] }
serde = { version = "1", features = ["derive"] }
