[package]
name = "mlp_zk"
version = "0.1.0"
edition = "2021"
publish = false

[dependencies]
halo2_proofs = "0.3"
rand = "0.8"
