[package]
name = "abiv2"
version = "0.1.0"
edition = "2021"
publish = false

[dependencies]
solana-address = "*"
solana-program-error = "*"
solana-define-syscall = "*"
solana-program-log = "*"
