[package]
name = "rumqtt"
version = "0.1.0"
edition = "2021"
publish = false

[dependencies]
futures = "0.1"
crossbeam-channel = "0.5"
mqtt3 = "*"
