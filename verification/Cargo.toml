[package]
name = "time_tracking"
version = "0.1.0"
edition = "2021"
publish = false

[dependencies]
time = { version = "=0.3.55", features = ["formatting", "parsing", "macros", "local-offset"] }
unicode-width = "=0.2.3"
dirs = "=6.0.0"
interim = { version = "=0.2.1", features = ["time_0_3"] }
anyhow = "=1.0.104"
clap = { version = "=4.6.7", features = ["derive"] }
serde = { version = "=1.0.229", features = ["derive"] }
toml = "=0.9.12"
