[package]
name = "nanocl"
version = "0.1.0"
edition = "2021"
rust-version = "1.95"
publish = false

[dependencies]
bollard-next = "*"
chrono = { version = "0.4", features = ["serde"] }
clap = { version = "4", features = ["derive"] }
dialoguer = "*"
diesel = { version = "2", features = ["postgres", "r2d2", "chrono", "uuid", "serde_json"] }
futures = "0.3"
indicatif = "0.17"
log = "0.4"
ntex = { version = "=3.3.0", features = ["tokio"] }
serde = { version = "1", features = ["derive"] }
serde_json = "1"
tokio = { version = "1", features = ["fs"] }
tokio-util = { version = "0.7", features = ["codec"] }
utoipa = "*"
uuid = { version = "1", features = ["serde", "v4"] }
