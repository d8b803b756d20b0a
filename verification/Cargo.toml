[package]
name = "quantum_resistant_blockchain"
version = "0.1.0"
edition = "2021"
publish = false

[dependencies]
pqcrypto-falcon = "*"
pqcrypto-traits = "*"
serde = { version = "1.0", features = ["derive"] }
