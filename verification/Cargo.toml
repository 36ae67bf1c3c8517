[package]
name = "tray_item"
version = "0.1.0"
edition = "2021"
publish = false

[dependencies]
ksni = { version = "=0.3.6", features = ["blocking"] }
