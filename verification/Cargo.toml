[package]
name = "symbolic_units"
version = "0.1.0"
edition = "2021"
publish = false
