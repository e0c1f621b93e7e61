[package]
name = "sonar_core"
version = "0.1.0"
edition = "2021"
publish = false

[dependencies]
colored = "*"
pnet = "*"
csv = "*"
rust_xlsxwriter = "*"
serde = { version = "*", features = ["derive"] }
serde_json = "*"
thiserror = "*"
