[package]
name = "identity_reset"
version = "0.1.0"
edition = "2021"
publish = false

[dependencies]
rand = "0.8"
uuid = { version = "1", features = ["v4"] }
serde_json = "1"
serde = { version = "1", features = ["derive"] }
chrono = { version = "0.4", default-features = false, features = ["clock"] }
colored = "2"
directories = "5"
is_elevated = "0.1"
sysinfo = "0.30"
winreg = "0.52"
