[package]
name = "bikecmd"
version = "0.1.0"
edition = "2021"
publish = false

[dependencies]
clap = { version = "4", features = ["derive"] }
crc16 = "0.4"
rand = "0.9"
serialport = { version = "4", default-features = false }
thiserror = "2"
