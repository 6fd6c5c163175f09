[package]
name = "tic_tac_toe_server_rust"
version = "0.1.0"
edition = "2021"
publish = false

[dependencies]
rand = "0.8"
serde = { version = "1", features = ["derive"] }
log = "0.4"
env_logger = "*"
tokio = { version = "1", features = ["macros", "rt-multi-thread", "sync"] }
actix-web = "4"
actix-cors = "*"
utoipa = { version = "*", features = ["actix_extras"] }
validator = { version = "*", features = ["derive"] }
