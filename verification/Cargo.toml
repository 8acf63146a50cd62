[package]
name = "event_store"
version = "0.1.0"
edition = "2021"
publish = false

[dependencies]
chrono = { version = "=0.4.45", features = ["serde"] }
uuid = { version = "=1.29.0", features = ["v4", "serde"] }
sha2 = "=0.10.9"
serde = { version = "=1.0.229", features = ["derive"] }
serde_json = "=1.0.154"
proc-macro2 = "=1.0.107"
quote = "=1.0.47"
syn = { version = "=2.0.119", features = ["full", "extra-traits"] }
log = "=0.4.35"
r2d2 = "=0.8.10"
r2d2_postgres = "=0.18.2"
postgres = { version = "=0.19.14", features = ["with-uuid-1", "with-serde_json-1", "with-chrono-0_4"] }
fallible-iterator = "=0.2.0"
lapin-futures = "=0.28.4"
futures = "=0.1.31"
tokio = "=0.1.22"
redis = "*"
