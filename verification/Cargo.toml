[package]
name = "lol_accept"
version = "0.1.0"
edition = "2021"
publish = false

[dependencies]
regex = "1.10.6"
base64 = "0.21"
anyhow = "1"
lazy_static = "1.4"
serde = { version = "1", features = ["derive"] }
reqwest = { version = "0.12.5", default-features = false, features = ["rustls-tls", "blocking"] }
powershell_script = "1.1.0"
winreg = "0.52.0"
image = { version = "0.25.2", default-features = false, features = ["ico"] }
