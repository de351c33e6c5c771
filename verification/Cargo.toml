[package]
name = "chat_room"
version = "0.1.0"
edition = "2021"
publish = false

[dependencies]
axum = "*"
garde = "*"
serde = { version = "*", features = ["derive"] }
socketioxide = { version = "*", features = ["state", "extensions"] }
