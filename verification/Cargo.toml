[package]
name = "sauvegarde"
version = "0.1.0"
edition = "2021"
publish = false

[dependencies]
sha2 = "0.10"
sqlite = "*"
walkdir = "2"
serde = { version = "1", features = ["derive"] }
actix-web = { version = "4", features = ["openssl"] }
actix-files = "*"
actix-multipart = "*"
clap = { version = "4", features = ["derive", "env"] }
futures-util = "0.3"
openssl = "0.10"

[dev-dependencies]
tempfile = "3"
