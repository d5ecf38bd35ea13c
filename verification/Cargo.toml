[package]
name = "station_bridge"
version = "0.1.0"
edition = "2021"
publish = false

[dependencies]
axum = "=0.6.20"
dotenv = "=0.15.0"
hyper = { version = "=0.14.32", features = ["full"] }
hyper-tls = "=0.5.0"
prost = "=0.12.6"
serde = { version = "=1.0.229", features = ["derive"] }
tokio = { version = "=1.53.2", features = ["full"] }
tonic = "=0.10.2"
tonic-web = "=0.10.2"
tower = "=0.4.13"
tracing-subscriber = "=0.3.23"
