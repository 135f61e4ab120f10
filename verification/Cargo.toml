[package]
name = "jukebox-api"
version = "0.1.0"
edition = "2021"
publish = false

[dependencies]
elm_rs = "*"
futures-util = "0.3"
mpd = "*"
poem = { version = "*", features = ["websocket"] }
serde = { version = "1", features = ["derive"] }
serde_json = "1"
tokio = { version = "1", features = ["macros", "rt-multi-thread"] }
