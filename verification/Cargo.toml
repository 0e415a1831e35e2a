[package]
name = "gas_spent"
version = "0.1.0"
edition = "2021"
publish = false

[dependencies]
chrono = { version = "=0.4.45", default-features = false, features = ["std"] }
clap = { version = "=4.6.7", default-features = false, features = ["derive", "std", "help", "usage", "error-context"] }
colored = "=2.2.0"
dotenv = "=0.15.0"
ethers = { version = "=2.0.14", default-features = false, features = ["etherscan"] }
tokio = { version = "=1.54.1", features = ["macros", "rt-multi-thread"] }
