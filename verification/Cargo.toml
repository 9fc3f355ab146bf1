[package]
name = "r1cs_assignment"
version = "0.1.0"
edition = "2021"
publish = false

[dependencies]
indexmap = "*"
snarkvm-algorithms = "*"
snarkvm-curves = "*"
snarkvm-fields = "*"
snarkvm-utilities = "*"
