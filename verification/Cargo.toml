[package]
name = "dctl"
version = "0.1.0"
edition = "2021"
publish = false

[dependencies]
clap = "*"
clap_complete = "*"
dotenv = "*"
eyre = "*"
serde = { version = "*", features = ["derive"] }
shellexpand = "*"
tabled = "*"
toml = "*"
