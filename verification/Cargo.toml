[package]
name = "branch_report"
version = "0.1.0"
edition = "2021"
publish = false

[dependencies]
chrono = { version = "=0.4.45", default-features = false, features = ["clock"] }
clap = { version = "=4.6.7", features = ["derive"] }
colored = "=2.2.0"
git2 = { version = "0.20", default-features = false }
regex = "=1.13.1"
