[package]
name = "fibonacci_circuit"
version = "0.1.0"
edition = "2021"
publish = false

[dependencies]
bellperson = { version = "=0.24.1", default-features = false }
nova-snark = "=0.11.0"
pasta-msm = "=0.1.3"
pasta_curves = "=0.4.1"
