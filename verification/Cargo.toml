[package]
name = "lint_rules"
version = "0.1.0"
edition = "2021"
rust-version = "1.95"
publish = false

[dependencies]
regex = "=1.13.1"
oxc_ast = ">=0.100, <0.142"
oxc_span = ">=0.100, <0.142"
oxc_diagnostics = ">=0.100, <0.142"
