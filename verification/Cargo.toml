[package]
name = "music_bot"
version = "0.1.0"
edition = "2021"
publish = false

[dependencies]
serenity = { version = "=0.12.5", features = ["voice", "collector", "framework", "standard_framework"] }
songbird = { version = "0.5", features = ["builtin-queue"] }
reqwest = { version = "0.12", default-features = false, features = ["json", "rustls-tls"] }
serde_json = "=1.0.154"
iso8601 = "=0.6.6"
tokio = { version = "=1.54.1", features = ["macros", "rt-multi-thread", "signal"] }
dotenv = "=0.15.0"
