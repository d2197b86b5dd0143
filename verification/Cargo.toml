[package]
name = "tuigreet"
version = "0.1.0"
edition = "2021"
publish = false

[dependencies]
chrono = "0.4"
getopts = "0.2"
ratatui = { version = "*", default-features = false }
zeroize = "1"
toml = "*"
serde = { version = "1", features = ["derive"] }
dirs = "*"
nix = { version = "*", features = ["feature", "hostname"] }
uzers = "*"
rust-ini = "*"
utmp-rs = "*"
tracing = "*"
codespan-reporting = "*"
