[package]
name = "mnemos-platforms"
version = "0.1.0"
edition = "2021"
publish = false

[dependencies]
cobs = "0.2.3"
serde = { version = "1", features = ["derive"] }
bbq10kbd = "*"
d1-pac = "*"
