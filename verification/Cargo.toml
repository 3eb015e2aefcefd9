[package]
name = "rustic_config"
version = "0.1.0"
edition = "2021"
publish = false

[dependencies]
abscissa_core = "*"
clap = { version = "*", features = ["derive", "env"] }
directories = "*"
log = "*"
serde = { version = "*", features = ["derive"] }
serde_with = "*"
shell-words = "*"
