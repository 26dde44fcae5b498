[package]
name = "trebuchet"
version = "0.1.0"
edition = "2021"
publish = false

[dependencies]
anyhow = "=1.0.104"
axum = "=0.7.9"
bincode = "=1.3.3"
bluez-async = "=0.7.2"
chrono = { version = "=0.4.45", features = ["serde"] }
clap = { version = "=4.6.7", features = ["derive", "env"] }
env_logger = "=0.11.11"
fake = { version = "2.9", features = ["chrono", "derive"] }
log = "=0.4.34"
mac_address = "=1.2.1"
pcap = "=2.5.0"
radiotap = "=1.3.0"
rand = "=0.8.8"
rumqttc = "=0.24.0"
serde = { version = "=1.0.229", features = ["derive"] }
serde_json = "=1.0.154"
serde_yaml = "=0.9.34"
sha2 = "=0.10.9"
sqlx = { version = "=0.7.4", default-features = false, features = ["runtime-tokio", "postgres", "chrono", "macros"] }
thiserror = "=1.0.69"
tokio = { version = "=1.54.1", features = ["full"] }
tokio-stream = { version = "=0.1.19", features = ["sync"] }
tower-http = { version = "=0.5.2", features = ["fs"] }
uuid = { version = "=1.29.0", features = ["v5"] }
