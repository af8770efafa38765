[package]
name = "vaultsync"
version = "0.1.0"
edition = "2021"
publish = false

[dependencies]
chrono = { version = "=0.4.45", default-features = false, features = ["clock", "std"] }
dashmap = "=6.2.1"
diesel = { version = "=2.3.14", default-features = false, features = ["chrono", "postgres_backend"] }
governor = "=0.10.4"
log = "=0.4.35"
once_cell = "=1.21.4"
redis = { version = "=0.27.6", features = ["tokio-native-tls-comp", "connection-manager"] }
rmpv = { version = "=1.3.1", features = ["with-serde"] }
rocket = { version = "=0.5.2", default-features = false }
rocket_ws = "=0.1.1"
serde = { version = "=1.0.229", features = ["derive"] }
serde_json = "=1.0.154"
tokio = { version = "=1.54.1", features = ["macros", "rt-multi-thread", "sync", "time"] }
uuid = { version = "=1.29.0", features = ["v4"] }
