[package]
name = "manti"
version = "0.1.0"
edition = "2021"
publish = false

[dependencies]
serde = { version = "=1.0.229", features = ["derive"] }
serde_json = "=1.0.154"
argon2 = "=0.5.3"
aes-gcm = "=0.10.3"
sha2 = "=0.10.9"
base64 = "=0.22.1"
rand = "=0.8.8"
rust_decimal = "=1.43.0"
chrono = { version = "=0.4.45", features = ["serde"] }
uuid = { version = "=1.29.0", features = ["v4", "serde"] }
jsonwebtoken = "=9.3.1"
thiserror = "=1.0.69"
tokio = { version = "=1.54.1", features = ["full"] }
futures = "=0.3.34"
async-stream = "=0.3.6"
async-trait = "=0.1.92"
reqwest = { version = "=0.12.28", default-features = false, features = ["json", "stream", "rustls-tls"] }
once_cell = "=1.21.4"
tracing = "=0.1.44"
tracing-subscriber = { version = "=0.3.23", features = ["env-filter"] }
gotcha = { version = "=0.4.1", features = ["cors"] }
conservator = "=0.2.0"
config = { version = "0.14", default-features = false, features = ["toml"] }
sqlx = { version = "=0.7.4", features = ["postgres", "runtime-tokio-native-tls", "chrono", "uuid", "json", "rust_decimal", "migrate"] }
