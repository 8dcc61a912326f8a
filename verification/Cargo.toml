[package]
name = "branchfy"
version = "0.1.0"
edition = "2021"
publish = false

[dependencies]
chrono = "0.4"
clap = "2.34"
ctrlc = "3"
dialoguer = "0.11"
directories = "5"
git2 = { version = "0.19", default-features = false }
indicatif = "0.17"
rspotify = { version = "0.13", default-features = false, features = ["client-reqwest", "reqwest-rustls-tls"] }
rspotify-model = "0.13"
serde = { version = "1", features = ["derive"] }
serde_json = "1"
shellexpand = "3"
tokio = { version = "1", features = ["macros", "rt-multi-thread", "time"] }
