[package]
name = "sphrs"
version = "0.2.2"
edition = "2021"

[dependencies]
num = "0.4"
num-complex = "0.4"
num-traits = "0.2"
