[package]
name = "linear_bot"
version = "0.1.0"
edition = "2021"
publish = false

[dependencies]
pwhash = "1"
chrono = "0.4"
dotenv = "0.15"
futures = "0.3"
mongodb = "2"
poise = "0.6"
serenity = "0.12"
tokio = { version = "1", features = ["macros", "rt-multi-thread"] }
