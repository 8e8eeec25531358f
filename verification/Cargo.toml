[package]
name = "mithra"
version = "0.1.0"
edition = "2021"
publish = false

[dependencies]
chrono = "0.4"
json = "0.12"
clap = "2"
configparser = "3"
hostname-validator = "1"
postgres = { version = "0.19", features = ["with-chrono-0_4"] }
rumqttc = "*"
yaml-rust = "0.4"
