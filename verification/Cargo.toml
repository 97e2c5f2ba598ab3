[package]
name = "book_covers"
version = "0.1.0"
edition = "2021"
publish = false

[dependencies]
blockfrost = "0.2"
bytes = "1"
reqwest = { version = "0.11", features = ["json"] }
serde = { version = "1", features = ["derive"] }
serde_json = "1"
sha2 = "0.10"
tokio = { version = "1", features = ["macros", "rt-multi-thread"] }
tokio-retry = "0.3"
