[package]
name = "meteroid_store"
version = "0.1.0"
edition = "2021"
publish = false

[dependencies]
chrono = "0.4"
cornucopia_async = "*"
diesel = { version = "2", default-features = false, features = ["postgres_backend", "uuid", "chrono", "serde_json"] }
diesel-async = { version = "*", features = ["postgres", "deadpool"] }
error-stack = "*"
futures = "0.3"
rust_decimal = "1"
rustls = { version = "0.23", default-features = false, features = ["ring", "std", "tls12", "logging"] }
rustls-native-certs = "*"
secrecy = "*"
serde = { version = "1", features = ["derive"] }
serde_json = "1"
thiserror = "*"
tokio = { version = "1", features = ["rt-multi-thread", "macros"] }
tokio-postgres = "0.7"
tokio-postgres-rustls = "*"
tonic = "*"
tracing = "0.1"
uuid = { version = "1", features = ["v7"] }
