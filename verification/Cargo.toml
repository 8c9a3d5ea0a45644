[package]
name = "eden"
version = "0.1.0"
edition = "2021"
publish = false

[dependencies]
async-trait = "*"
chrono = { version = "0.4", features = ["serde"] }
config = { version = "*", default-features = false, features = ["toml"] }
cron_clock = "*"
dashmap = "*"
doku = "*"
futures = "*"
num_cpus = "*"
pin-project-lite = "*"
rust_decimal = "*"
serde = { version = "1", features = ["derive"] }
serde_json = "1"
serde_with = "*"
sqlx = { version = "*", default-features = false, features = ["postgres", "runtime-tokio", "chrono", "uuid", "json"] }
thiserror = "*"
tokio = { version = "1", features = ["sync", "time", "rt", "macros"] }
tokio-util = "*"
tracing = "*"
twilight-model = "*"
typed-builder = "*"
uuid = { version = "1", features = ["v4", "serde"] }
