[package]
name = "docs_to_knowledge"
version = "0.1.0"
edition = "2021"
publish = false

[dependencies]
scraper = "*"
html2md = "*"
cargo_metadata = "*"
reqwest = { version = "*", default-features = false, features = ["blocking"] }
tiny_http = "*"
clap = { version = "*", features = ["derive"] }
chrono = "*"
fancy-regex = "*"
glob = "*"
ignore = "*"
notify = "*"
prettytable-rs = "*"
serde = { version = "*", features = ["derive"] }
serde_json = "*"
