[package]
name = "esp_ble"
version = "0.1.0"
edition = "2021"
publish = false

[dependencies]
anyhow = "1"
embedded-hal = "0.2"
esp-idf-hal = "*"
esp-idf-svc = "*"
esp-idf-sys = "*"
futures = "0.3"
log = "0.4"
