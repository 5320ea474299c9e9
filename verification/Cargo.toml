[package]
name = "degauss"
version = "0.1.0"
edition = "2021"
publish = false

[dependencies]
apache-avro = "*"
serde = { version = "*", features = ["derive"] }
serde_json = "*"
isahc = "*"
comfy-table = "*"
structopt = "*"
strum = "*"
strum_macros = "*"
thiserror = "*"
