[package]
name = "nockchain_pool"
version = "0.1.0"
edition = "2021"
publish = false

[dependencies]
anyhow = "1"
async-stream = "0.3"
axum = "0.7"
blake3 = "1"
bytes = "1"
chrono = "0.4"
clap = { version = "4", features = ["derive"] }
dashmap = "6"
dotenv = "0.15"
equix = "*"
futures = "0.3"
hex = "0.4"
num_cpus = "1"
prost = "0.13"
regex = "1"
reqwest = { version = "0.12", default-features = false, features = ["rustls-tls"] }
serde = { version = "1", features = ["derive"] }
serde_bytes = "0.11"
thiserror = "1"
tokio = { version = "1", features = ["full"] }
tonic = "0.12"
tower-http = { version = "0.5", features = ["cors"] }
tracing = "0.1"
uuid = { version = "1", features = ["v4"] }
