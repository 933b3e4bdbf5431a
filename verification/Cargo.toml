[package]
name = "gadget_utilities"
version = "0.1.0"
edition = "2021"
publish = false

[dependencies]
halo2_proofs = "*"
pasta_curves = "=0.6.0"
