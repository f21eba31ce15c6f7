[package]
name = "module_error"
version = "0.1.0"
edition = "2021"
publish = false

[dependencies]
halo2_proofs = { version = "=0.4.0", default-features = false }
thiserror = "=1.0.69"
