[package]
name = "plg"
version = "1.0.0"
edition = "2021"
publish = false

[dependencies]
chrono = { version = "=0.4.45", features = ["serde"] }
clap = { version = "=4.6.7", features = ["derive"] }
clap_complete = "=4.6.11"
directories = "=6.0.0"
git2 = { version = "=0.21.0", features = ["https", "ssh"] }
serde = { version = "=1.0.229", features = ["derive"] }
toml = "=1.1.8"
qtrs = "*"
