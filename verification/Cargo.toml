[package]
name = "anki_card_adjuster"
version = "0.1.0"
edition = "2021"
publish = false

[dependencies]
itertools = "0.12"
reqwest = { version = "0.11", default-features = false, features = ["json"] }
serde = { version = "1", features = ["derive"] }
serde_json = "1"
tokio = { version = "1", features = ["rt-multi-thread", "macros", "time"] }
