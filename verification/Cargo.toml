[package]
name = "easy_lang"
version = "0.1.0"
edition = "2021"
publish = false

[dependencies]
actix-web = "4"
actix-files = "0.6"
actix-cors = "0.7"
async-openai = "0.20"
deepl = "0.6"
sqlx = { version = "0.7", default-features = false, features = ["runtime-tokio", "postgres", "macros"] }
tokio = { version = "1", features = ["sync", "fs", "io-util", "macros", "rt-multi-thread"] }
chrono = "0.4"
serde = { version = "1", features = ["derive"] }
serde_json = "1"
ramhorns = "1"
bytes = "1"
futures-util = "0.3"
lazy_static = "1"
dotenv = "0.15"
anyhow = "1"
http = "0.2"
tracing = "0.1"
tracing-subscriber = { version = "0.3", features = ["env-filter"] }
tracing-appender = "0.2"
