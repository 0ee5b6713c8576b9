[package]
name = "minami"
version = "0.1.0"
edition = "2021"
publish = false

[dependencies]
image = { version = "0.23", default-features = false }
quircs = "0.10"
scrap = "0.5"
iced = { version = "0.5", features = ["qr_code"] }

[dev-dependencies]
qrcode = { version = "0.12", default-features = false }
