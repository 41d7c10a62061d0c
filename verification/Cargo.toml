[package]
name = "schnorr_agg"
version = "0.1.0"
edition = "2021"
publish = false

[dependencies]
halo2curves = "=0.10.0"
neptune = "=13.0.0"
rand = "=0.8.8"
typenum = "*"
