[package]
name = "xcpp"
version = "0.1.0"
edition = "2021"
publish = false

[dependencies]
text_placeholder = "*"
confy = "*"
structopt = "0.3"
serde = { version = "1", features = ["derive"] }
serde_derive = "1"
log = "0.4"
env_logger = "*"
anyhow = "1"
