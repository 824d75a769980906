[package]
name = "rust_todo"
version = "0.1.0"
edition = "2021"
publish = false

[dependencies]
rusqlite = { version = "*", features = ["bundled"] }
serde = { version = "1", features = ["derive"] }
actix-web = "4"
env_logger = "*"
structopt = "0.3"
