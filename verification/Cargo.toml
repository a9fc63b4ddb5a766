[package]
name = "dash-rs"
version = "0.1.0"
edition = "2021"
publish = false

[dependencies]
base64 = "0.22"
percent-encoding = "2"
flate2 = "1"
itoa = "1"
dtoa = "1"
serde = { version = "1", features = ["derive"] }
thiserror = "1"
