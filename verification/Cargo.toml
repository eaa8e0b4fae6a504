[package]
name = "order_choreography"
version = "0.1.0"
edition = "2021"
publish = false

[dependencies]
anyhow = "=1.0.104"
async-trait = "=0.1.92"
axum = "=0.8.9"
chrono = { version = "=0.4.45", features = ["serde"] }
figment = { version = "=0.10.19", features = ["env", "toml"] }
hex = "=0.4.3"
rand = "=0.8.8"
rskafka = "=0.6.0"
serde = { version = "=1.0.229", features = ["derive"] }
serde_json = "=1.0.154"
sha2 = "=0.10.9"
sqlx = { version = "=0.8.6", default-features = false, features = ["runtime-tokio", "postgres", "uuid", "chrono", "json", "migrate", "derive"] }
thiserror = "=2.0.21"
tokio = { version = "=1.54.1", features = ["macros", "rt-multi-thread", "net", "signal", "sync", "time"] }
tracing = "=0.1.44"
tracing-subscriber = { version = "=0.3.23", features = ["env-filter", "json"] }
uuid = { version = "=1.29.0", features = ["v7", "serde"] }
