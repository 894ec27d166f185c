[package]
name = "mcc"
version = "0.1.0"
edition = "2021"
publish = false

[dependencies]
whoami = "=1.6.1"
serde = { version = "=1.0.229", features = ["derive"] }
serde_derive = "=1.0.229"
serde_json = "=1.0.154"
toml = "=0.8.23"
config = "=0.13.4"
crossterm = "=0.25.0"
tui = "=0.19.0"
once_cell = "=1.21.4"
lazy_static = "=1.5.1"
mclr = "=2.0.1"
