[package]
name = "pcloud"
version = "0.1.0"
edition = "2021"
publish = false

[dependencies]
url = "2"
rand = "0.8"
chrono = { version = "0.4", features = ["serde"] }
serde = { version = "1", features = ["derive"] }
clap = { version = "4", features = ["derive"] }
actix-web = { version = "4", default-features = false, features = ["macros", "compress-gzip", "openssl"] }
openssl = "0.10"
sqlx = { version = "0.7", default-features = false, features = ["sqlite", "runtime-tokio", "chrono"] }
reqwest = { version = "0.11", features = ["blocking", "json"] }
bcrypt = "0.15"
rocket = { version = "0.5", default-features = false, features = ["secrets", "json"] }
diesel = { version = "2", features = ["sqlite"] }
time = "0.3"
