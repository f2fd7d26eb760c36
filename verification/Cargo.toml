[package]
name = "aircontrol"
version = "0.1.0"
edition = "2021"
publish = false

[dependencies]
chrono = { version = "0.4", default-features = false, features = ["clock"] }
hidapi = { version = "2", default-features = false, features = ["linux-native-basic-udev"] }
