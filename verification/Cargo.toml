[package]
name = "galaxybook-camera"
version = "0.1.0"
edition = "2021"
publish = false

[dependencies]
chrono = "0.4"
gettext-rs = { version = "*", features = ["gettext-system"] }
libcamera = "*"
gtk4 = "*"
libadwaita = { version = "*", features = ["v1_5"] }
image = { version = "*", default-features = false, features = ["jpeg"] }
