[package]
name = "pactrack"
version = "0.1.0"
edition = "2021"
publish = false

[dependencies]
chrono = "0.4"
clap = { version = "4", features = ["derive"] }
dirs = "5"
env_logger = "0.11"
glib = "0.18"
gtk = "0.18"
libloading = "0.8"
log = "0.4"
notify-rust = "4"
serde = { version = "1", features = ["derive"] }
shell-words = "1"
thiserror = "1"
toml = "0.8"

[dev-dependencies]
tempfile = "3"
