[package]
name = "sportsday_scoreboard_v2"
version = "0.1.0"
edition = "2021"
publish = false

[dependencies]
actix = "=0.13.5"
actix-web = { version = "=4.18.1", default-features = false, features = ["macros", "cookies", "ws"] }
actix-web-actors = "=4.3.1"
actix-web-prom = "=0.10.0"
askama = "=0.16.1"
async-sqlite = "=0.6.0"
chrono = { version = "=0.4.45", features = ["serde"] }
env_logger = "=0.11.11"
futures = "=0.3.34"
log = "=0.4.34"
prometheus = "=0.14.0"
reqwest = { version = "=0.13.5", default-features = false }
serde = { version = "=1.0.229", features = ["derive"] }
serde_json = "=1.0.154"
serde_yml = "=0.0.13"
tokio = { version = "=1.54.1", features = ["rt", "macros", "fs"] }
uuid = { version = "=1.29.0", features = ["v4"] }
