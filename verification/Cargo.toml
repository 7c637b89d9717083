[package]
name = "campus-lms-cli"
version = "0.1.0"
edition = "2021"
publish = false

[dependencies]
thiserror = "1"
clap = { version = "4", features = ["derive"] }
reqwest = { version = "0.12", default-features = false, features = ["blocking", "json", "rustls-tls"] }
serde = { version = "1", features = ["derive"] }
serde_json = "1"
toml = "0.8"
rpassword = "7"
keyring = "3"
directories = "5"
time = { version = "0.3", features = ["serde", "formatting", "parsing"] }
html2text = "0.12"
url = "2"
sha2 = "0.10"
schemars = "0.8"
zeroize = "1"
