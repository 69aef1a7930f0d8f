[package]
name = "clockodo_cli"
version = "0.1.0"
edition = "2021"
publish = false

[dependencies]
chrono = "*"
clap = { version = "*", features = ["derive"] }
dirs = "*"
reqwest = { version = "*", default-features = false, features = ["blocking", "json", "rustls-tls"] }
rpassword = "*"
serde = { version = "*", features = ["derive"] }
serde_json = "*"
serde_repr = "*"
thiserror = "*"
toml = "*"
