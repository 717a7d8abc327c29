[package]
name = "datagen"
version = "0.1.0"
edition = "2021"
publish = false

[dependencies]
chrono = "0.4"
clap = "2"
csv = "1"
futures = "0.3"
paho-mqtt = "*"
rand = "0.8"
rdkafka = "*"
serde = { version = "1", features = ["derive"] }
serde_derive = "1"
serde_json = "1"
toml = "0.5"
