[package]
name = "mj_autograd"
version = "0.1.0"
edition = "2021"
publish = false
