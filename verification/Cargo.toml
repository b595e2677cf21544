[package]
name = "fractured_keyspace"
version = "0.1.0"
edition = "2021"
publish = false

[dependencies]
ml-dsa = "*"
pqcrypto-dilithium = "=0.5.0"
pqcrypto-traits = "=0.3.5"
rand = "=0.8.8"
hex = "=0.4.3"
colored = "=2.2.0"
