[package]
name = "rv32imc"
version = "0.1.0"
edition = "2021"
publish = false
