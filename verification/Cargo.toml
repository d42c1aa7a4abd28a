[package]
name = "bouffalo"
version = "0.1.0"
edition = "2021"
publish = false

[dependencies]
sha2 = "=0.10.9"
crc = "=3.4.0"
object = { version = "=0.36.7", default-features = false, features = ["read"] }
clap = { version = "=4.6.7", features = ["derive"] }
serialport = { version = "=4.10.1", default-features = false }
colored = "=2.2.0"
same-file = "=1.0.6"
thiserror = "2"
serde = { version = "1", features = ["derive"] }
toml = "0.8"
inquire = "0.7"
ctrlc = "3"
crossterm = "0.28"
