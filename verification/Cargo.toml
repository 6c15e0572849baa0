[package]
name = "qubit_gates"
version = "0.1.0"
edition = "2021"
publish = false

[dependencies]
qoqo_calculator = "1"
num-complex = "0.4"
ndarray = "0.15"
