[package]
name = "cctv_smtp"
version = "0.1.0"
edition = "2021"
publish = false

[dependencies]
anyhow = "*"
base64 = "*"
dotenv = "*"
mail-parser = "*"
reqwest = { version = "*", default-features = false, features = ["json"] }
serde = { version = "*", features = ["derive"] }
serde-xml-rs = "*"
tokio = { version = "*", features = ["rt-multi-thread", "net", "io-util", "macros"] }
