[package]
name = "terra_fusion_pro"
version = "0.1.0"
edition = "2021"
publish = false

[dependencies]
actix-session = { version = "=0.11.0", features = ["cookie-session"] }
actix-web = { version = "=4.18.1", default-features = false, features = ["macros", "cookies"] }
async-graphql = "=7.2.1"
async-graphql-actix-web = "=7.2.1"
async-trait = "=0.1.92"
base64 = "=0.21.7"
chrono = { version = "=0.4.45", default-features = false, features = ["clock", "std", "serde"] }
config = { version = "0.13", default-features = false, features = ["toml"] }
dotenv = "=0.15.0"
env_logger = { version = "=0.10.2", default-features = false }
futures-util = { version = "=0.3.34", default-features = false, features = ["std"] }
jsonwebtoken = { version = "=8.3.0", default-features = false }
log = "=0.4.34"
regex = "=1.13.1"
reqwest = { version = "=0.11.27", default-features = false, features = ["json"] }
serde = { version = "=1.0.229", features = ["derive"] }
serde_json = "=1.0.154"
sqlx = { version = "=0.7.4", default-features = false, features = ["postgres", "runtime-tokio", "chrono", "json"] }
tokio = { version = "=1.54.1", features = ["rt-multi-thread", "macros", "sync"] }
uuid = { version = "=1.29.0", features = ["v4"] }
validator = { version = "=0.16.1", features = ["derive"] }
