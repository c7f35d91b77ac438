[package]
name = "mysensors"
version = "0.1.0"
edition = "2021"
publish = false

[dependencies]
bufstream = "0.1"
chrono = "0.4"
rusqlite = { version = "*", features = ["chrono"] }
serialport = { version = "*", default-features = false }
