[package]
name = "orx_concurrent_iter"
version = "0.1.0"
edition = "2021"
publish = false

[dependencies]
orx-pseudo-default = "*"
