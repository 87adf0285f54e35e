[package]
name = "islandbridge"
version = "0.1.0"
edition = "2021"
publish = false

[dependencies]
archipelago_rs = "*"
reqwest = { version = "*", default-features = false, features = ["json"] }
serde = { version = "*", features = ["derive"] }
serde_json = "*"
tokio = { version = "*", features = ["rt-multi-thread", "macros", "sync", "time"] }
