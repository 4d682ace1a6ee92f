[package]
name = "cloud_files"
version = "0.1.0"
edition = "2021"
publish = false

[dependencies]
actix-files = "0.5"
actix-multipart = "0.3"
actix-rt = "1"
actix-web = { version = "3", features = ["openssl"] }
bcrypt = "0.15"
chrono = "0.4"
dotenv = "0.15"
futures = "0.3"
jsonwebtoken = "7"
openssl = "0.10"
r2d2 = "0.8"
r2d2_sqlite = "0.17"
rusqlite = "0.24"
serde = { version = "1", features = ["derive"] }
validator = { version = "0.12", features = ["derive"] }
