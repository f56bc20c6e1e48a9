[package]
name = "workspaces"
version = "0.4.0"
edition = "2021"
publish = false

[dependencies]
chrono = "0.4"
clap = { version = "4", features = ["derive"] }
hostname = "0.4"
lettre = "0.11"
libsqlite3-sys = "*"
prettytable-rs = "0.10"
rusqlite = { version = "*", features = ["backup", "chrono"] }
serde = { version = "1", features = ["derive"] }
toml = "0.8"
users = "0.11"
