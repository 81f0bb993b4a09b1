[package]
name = "nsncd"
version = "0.1.0"
edition = "2021"
publish = false

[dependencies]
anyhow = "=1.0.104"
atoi = "=0.3.3"
nix = { version = "=0.29.0", features = ["user"] }
slog = "=2.8.2"
