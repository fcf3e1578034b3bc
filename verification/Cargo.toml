[package]
name = "wallet_service"
version = "0.1.0"
edition = "2021"
publish = false

[dependencies]
actix-web = { version = "*", default-features = false }
chrono = { version = "0.4", features = ["serde"] }
diesel = { version = "*", features = ["postgres", "r2d2", "chrono"] }
rocket = "*"
serde = { version = "1", features = ["derive"] }
slog = "2"
