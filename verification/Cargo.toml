[package]
name = "freetds_pool"
version = "0.1.0"
edition = "2021"
publish = false

[dependencies]
r2d2 = "=0.8.10"
