[package]
name = "bip"
version = "0.1.0"
edition = "2021"
publish = false

[dependencies]
byteorder = "1"
bytes = "1"
chrono = "0.4"
mio = { version = "1", features = ["net", "os-poll"] }
nom = "7"
thiserror = "1"
