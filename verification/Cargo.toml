[package]
name = "linear-cli"
version = "0.1.0"
edition = "2021"
publish = false

[dependencies]
anyhow = "1"
clap = { version = "4", features = ["derive"] }
colored = "*"
console = "*"
dialoguer = "*"
dirs = "*"
futures = "0.3"
indicatif = "*"
reqwest = { version = "0.12", default-features = false, features = ["json", "rustls-tls"] }
serde = { version = "1", features = ["derive"] }
serde_json = "1"
tabled = "*"
tokio = { version = "1", features = ["macros", "rt-multi-thread"] }
toml = "*"
