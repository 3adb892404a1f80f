[package]
name = "heyreach"
version = "0.1.0"
edition = "2021"
publish = false

[dependencies]
serde_json = "1"
ureq = "3"
clap = { version = "4", features = ["derive"] }
rpassword = "7"
