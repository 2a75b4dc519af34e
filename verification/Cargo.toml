[package]
name = "order_validator"
version = "0.1.0"
edition = "2021"
publish = false

[dependencies]
sha2 = "=0.10.9"
sp1-zkvm = "=6.10.0"

[dev-dependencies]
bincode = "=1.3.3"
