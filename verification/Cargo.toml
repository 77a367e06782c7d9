[package]
name = "sillycord_bot"
version = "0.1.0"
edition = "2021"
publish = false

[dependencies]
chrono = "0.4"
chrono-tz = "*"
dotenv = "0.15"
poise = "0.6"
rand = "0.8"
rand_pcg = "0.3"
reqwest = { version = "0.11", default-features = false, features = ["rustls-tls"] }
serde = { version = "1", features = ["derive"] }
serde_json = "1"
serenity = "0.12"
sqlx = { version = "0.8", default-features = false, features = ["runtime-tokio", "mysql", "time", "migrate"] }
time = "0.3"
tokio = { version = "1", features = ["macros", "rt-multi-thread", "time"] }
toml = "0.8"
tracing = "0.1"
tracing-subscriber = "0.3"
