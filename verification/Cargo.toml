[package]
name = "tg_bot"
version = "0.1.0"
edition = "2021"
publish = false

[dependencies]
ed25519-dalek = "=1.0.1"
schnorrkel = "=0.11.5"
rand = "=0.7.3"
rand_core = { version = "=0.6.4", features = ["getrandom"] }
hex = "=0.4.3"
serde = { version = "1", features = ["derive"] }
serde_json = "1"
anyhow = "1"
log = "0.4"
pretty_env_logger = "0.4"
tokio = { version = "1", features = ["rt-multi-thread", "macros"] }
teloxide = { version = "0.10", default-features = false, features = ["macros", "auto-send", "ctrlc_handler", "rustls"] }
dptree = "0.3"
takecell = "=0.1.1"
