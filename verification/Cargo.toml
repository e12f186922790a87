[package]
name = "phi_accrual_detector"
version = "0.1.0"
edition = "2021"
publish = false

[dependencies]
async-trait = "*"
chrono = "*"
libm = "*"
tokio = { version = "*", features = ["sync"] }
