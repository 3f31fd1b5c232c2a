[package]
name = "kply"
version = "0.1.0"
edition = "2021"
publish = false

[dependencies]
regex = "1"
serde = { version = "1", features = ["derive"] }
serde_json = "1"
clap = { version = "4", features = ["derive"] }
toml = "*"
serde_norway = "*"
anyhow = "1"
tempfile = "3"
kube = "*"
k8s-openapi = { version = "*", features = ["latest"] }
