[package]
name = "trade_fleet"
version = "0.1.0"
edition = "2021"
publish = false

[dependencies]
async-trait = "=0.1.92"
chrono = "=0.4.45"
dotenv = "=0.15.0"
envy = "=0.4.2"
futures = "=0.3.34"
futures-util = "=0.3.34"
quinn = "=0.8.5"
rcgen = "=0.9.3"
rustls = { version = "=0.20.9", features = ["dangerous_configuration"] }
serde = { version = "=1.0.229", features = ["derive"] }
tarpc = { version = "=0.30.0", features = ["serde-transport", "tokio1"] }
time = "=0.3.55"
tokio = { version = "=1.53.2", features = ["full"] }
tokio-serde = { version = "=0.8.0", features = ["bincode"] }
tokio-util = { version = "=0.7.19", features = ["codec"] }
x509-parser = "=0.14.0"
