[package]
name = "cargo_piston"
version = "0.1.0"
edition = "2021"
publish = false

[dependencies]
anyhow = "=1.0.104"
cargo_metadata = "=0.23.1"
cargo-subcommand = { version = "=0.12.0", features = ["clap"] }
clap = { version = "=4.6.7", features = ["derive"] }
dotenv = "=0.15.0"
env_logger = "=0.11.11"
image = "=0.25.10"
serde = { version = "=1.0.229", features = ["derive"] }
serde_json = "=1.0.151"
