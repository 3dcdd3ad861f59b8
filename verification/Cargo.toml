[package]
name = "bound_check"
version = "0.1.0"
edition = "2021"
publish = false

[dependencies]
ark-ff = "*"
ark-relations = "*"
ark-r1cs-std = "*"
ark-bls12-381 = "*"
ark-std = "*"
