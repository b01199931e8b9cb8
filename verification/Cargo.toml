[package]
name = "teams_status"
version = "0.1.0"
edition = "2021"
publish = false

[dependencies]
json = "*"
rust-ini = "*"
tokio = { version = "*", features = ["rt-multi-thread", "macros", "time", "signal"] }
tokio-tungstenite = "*"
futures-util = "*"
url = "*"
log = "*"
log4rs = "*"
dotenv = "*"
