[package]
name = "llm_gateway"
version = "0.1.0"
edition = "2021"
publish = false

[dependencies]
serde_json = "=1.0.151"
serde = { version = "*", features = ["derive"] }
actix-web = "*"
actix-files = "*"
actix-cors = "*"
reqwest = { version = "*", default-features = false, features = ["json", "rustls-tls"] }
dotenv = "*"
anyhow = "*"
llm-chain = "*"
llm-chain-openai = "*"
async-openai = "=0.16.3"
