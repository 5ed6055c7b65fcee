[package]
name = "user_repository"
version = "0.1.0"
edition = "2021"
publish = false

[dependencies]
chrono = { version = "0.4", features = ["serde"] }
diesel = { version = "1.4", features = ["postgres", "uuidv07", "chrono", "r2d2"] }
serde = { version = "1", features = ["derive"] }
uuid = { version = "0.8", features = ["v4", "serde"] }
