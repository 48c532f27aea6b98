[package]
name = "modrelay"
version = "0.1.0"
edition = "2021"
publish = false

[dependencies]
teloxide = "=0.17.0"
takecell = "=0.1.1"
tokio = { version = "*", features = ["rt-multi-thread", "macros"] }
futures-util = "*"
bytes = "*"
dotenv = "*"
log = "*"
