[package]
name = "ble_lock"
version = "0.1.0"
edition = "2021"
publish = false

[dependencies]
anyhow = "*"
bstr = "*"
esp32-nimble = "*"
esp-idf-svc = "*"
log = "*"
