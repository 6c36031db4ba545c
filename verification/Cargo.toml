[package]
name = "croak"
version = "0.1.0"
edition = "2021"
publish = false

[dependencies]
anyhow = "1"
chrono = "0.4"
clap = { version = "4", features = ["derive", "cargo"] }
config = "*"
ctrlc = "3"
dirs = "*"
hostname = "*"
lettre = { version = "0.11", default-features = false, features = ["builder", "smtp-transport", "rustls-tls"] }
rsdns = { version = "*", features = ["net-std"] }
serde = { version = "1", features = ["derive"] }
toml = "*"
ureq = { version = "3", features = ["json"] }
uuid = { version = "1", features = ["v4"] }
