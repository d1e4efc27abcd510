[package]
name = "user_auth"
version = "0.1.0"
edition = "2021"
publish = false

[dependencies]
bcrypt = "0.15"
chrono = "0.4"
diesel = { version = "2", features = ["mysql", "r2d2", "chrono"] }
dotenvy = "0.15"
jsonwebtoken = "9"
rocket = { version = "0.5", features = ["json"] }
