[package]
name = "mqtt_connection"
version = "0.1.0"
edition = "2021"
publish = false

[dependencies]
crossbeam-channel = "*"
futures = "0.1"
log = "0.4"
mqtt311 = "*"
tokio = "0.1"
