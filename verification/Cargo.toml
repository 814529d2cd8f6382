[package]
name = "fec_parser"
version = "0.1.0"
edition = "2021"
publish = false

[dependencies]
csv = "1"
regex = "1"
clap = { version = "4", features = ["cargo"] }
colored = "2"
indicatif = "0.17"
quick-xml = "*"
rusqlite = "*"
serde_json = "1"
tabled = "*"
thiserror = "1"
ureq = "2"
url = "2"
