[package]
name = "trade_flows"
version = "0.1.0"
edition = "2021"
publish = false

[dependencies]
deltadefi = "*"
dotenv = "*"
tokio = { version = "1", features = ["macros", "rt-multi-thread"] }
