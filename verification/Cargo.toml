[package]
name = "customai"
version = "0.1.0"
edition = "2021"
publish = false

[dependencies]
serde = { version = "=1.0.229", features = ["derive"] }
serde_json = "=1.0.154"
dashmap = "=6.2.1"
dotenv = "=0.15.0"
log = "=0.4.35"
pretty_env_logger = "=0.5.0"
tokio = { version = "=1.54.1", features = ["macros", "rt-multi-thread", "sync"] }
teloxide = { version = "=0.17.0", default-features = false, features = ["rustls", "ctrlc_handler", "macros"] }
async-openai = { version = "=0.43.0", default-features = false, features = ["rustls-no-provider", "chat-completion"] }
takecell = "=0.1.1"
