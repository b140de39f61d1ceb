[package]
name = "ocypus_digital"
version = "0.1.0"
edition = "2021"
publish = false

[dependencies]
regex = "=1.13.1"
log = "=0.4.34"
env_logger = "=0.11.11"
clap = { version = "=4.6.7", features = ["derive"] }
thiserror = "=1.0.69"
hidapi = { version = "=2.6.7", default-features = false, features = ["linux-native-basic-udev"] }
