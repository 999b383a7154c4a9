[package]
name = "deckgym"
version = "0.1.0"
edition = "2021"
publish = false

[dependencies]
colored = "2"
log = "0.4"
rand = "0.8"
serde = { version = "1", features = ["derive"] }
