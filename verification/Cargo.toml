[package]
name = "convfmt"
version = "0.1.0"
edition = "2021"
publish = false

[dependencies]
serde = "1"
serde_json = { version = "1", features = ["preserve_order"] }
serde_yaml = "0.9"
toml = { version = "0.8", features = ["preserve_order"] }
quick-xml = { version = "0.31", features = ["serialize"] }
quickxml_to_serde = "0.6"
clap = { version = "4", features = ["derive"] }
