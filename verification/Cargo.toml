[package]
name = "omega-agi"
version = "0.1.0"
edition = "2021"
publish = false

[dependencies]
chrono = { version = "=0.4.45", features = ["serde"] }
serde = { version = "=1.0.229", features = ["derive"] }
serde_json = "=1.0.154"
tokio = { version = "=1.54.1", features = ["rt-multi-thread", "macros", "time", "process", "sync", "io-util"] }
anyhow = "=1.0.104"
async-trait = "=0.1.92"
uuid = { version = "=1.29.0", features = ["v4"] }
dotenvy = "=0.15.7"
ctrlc = "=3.5.2"
tracing = "=0.1.44"
tracing-subscriber = { version = "=0.3.23", features = ["env-filter", "fmt"] }
sysinfo = "=0.32.1"
reqwest = { version = "=0.12.28", default-features = false, features = ["json", "rustls-tls"] }
parking_lot = "=0.12.5"
regex = "=1.13.1"
