[package]
name = "cornhacks24_game"
version = "0.1.0"
edition = "2021"
publish = false

[dependencies]
uuid = { version = "1", features = ["v4"] }
serde = { version = "1", features = ["derive"] }
reqwest = { version = "0.11", default-features = false, features = ["blocking", "json", "rustls-tls"] }
dotenvy = "0.15"
dotenvy_macro = "0.15"
elevenlabs-api = "*"
serialport = { version = "4", default-features = false }
