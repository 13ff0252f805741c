[package]
name = "k256_arith"
version = "0.1.0"
edition = "2021"
publish = false

[dependencies]
elliptic-curve = { version = "0.11", features = ["arithmetic"] }
