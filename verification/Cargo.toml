[package]
name = "gcloud_ssh"
version = "0.1.0"
edition = "2021"
publish = false

[dependencies]
serde_json = "=1.0.151"
whoami = "=1.6.1"
dirs = "=7.0.0"
colored = "=3.1.1"
dialoguer = "=0.12.0"
anyhow = "=1.0.104"
thiserror = "=2.0.21"
