[package]
name = "gaming_hub"
version = "0.1.0"
edition = "2021"
publish = false

[dependencies]
rand = "*"
unidecode = "*"
rusqlite = { version = "*", features = ["bundled"] }
reqwest = { version = "*", default-features = false, features = ["blocking", "json"] }
serde = { version = "*", features = ["derive"] }
