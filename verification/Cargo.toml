[package]
name = "escrow"
version = "0.1.0"
edition = "2021"
publish = false

[dependencies]
pinocchio = "=0.9.3"
pinocchio-system = "=0.3.0"
bytemuck = { version = "=1.25.2", features = ["derive"] }

[dev-dependencies]
pinocchio-pubkey = "=0.3.0"
sha2 = "=0.10.9"
