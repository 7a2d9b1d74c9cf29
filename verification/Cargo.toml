[package]
name = "methcla_client"
version = "0.1.0"
edition = "2021"
publish = false

[dependencies]
fixedbitset = "*"
rosc = "*"
