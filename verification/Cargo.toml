[package]
name = "snom_sql"
version = "0.1.0"
edition = "2021"
publish = false

[dependencies]
chrono = "0.4"
native-tls = "0.2"
postgres-native-tls = "0.5"
serde = { version = "1", features = ["derive"] }
tokio = { version = "1", features = ["rt"] }
tokio-postgres = { version = "0.7", features = ["with-chrono-0_4"] }
