[package]
name = "shticker_book_unwritten"
version = "1.0.0"
edition = "2021"
publish = false

[dependencies]
bzip2 = "=0.6.1"
sha1 = "=0.11.0"
serde_json = "=1.0.154"
serde = { version = "=1.0.229", features = ["derive"] }
clap = { version = "=4.6.7", features = ["cargo"] }
reqwest = { version = "=0.13.5", features = ["blocking", "form"] }
rpassword = "=7.5.4"
secret-service = { version = "=5.2.0", features = ["rt-tokio-crypto-rust"] }
