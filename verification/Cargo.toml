[package]
name = "modbot"
version = "0.1.0"
edition = "2021"
publish = false

[dependencies]
anyhow = "1"
bson = { version = "2", features = ["chrono-0_4"] }
chrono = "0.4"
dotenv = "0.15"
duration-string = "*"
futures = "0.3"
mongodb = "3"
poise = "0.6"
serde = { version = "1", features = ["derive"] }
serenity = "0.12"
strum_macros = "0.26"
tokio = { version = "1", features = ["macros", "rt-multi-thread"] }
