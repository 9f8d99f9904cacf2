[package]
name = "log_scrapper"
version = "0.1.0"
edition = "2021"
publish = false

[dependencies]
rand = "0.8"
fake = "2"
serde = { version = "1", features = ["derive"] }
serde_json = "1"
reqwest = { version = "0.11", default-features = false, features = ["json", "blocking"] }
tokio = { version = "1", features = ["macros", "rt-multi-thread", "time"] }
notify = "4"
log = "0.4"
env_logger = "0.10"
actix-web = { version = "4", default-features = false, features = ["macros"] }
actix-rt = "2"
