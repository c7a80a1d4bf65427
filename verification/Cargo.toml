[package]
name = "auth_core"
version = "0.1.0"
edition = "2021"
publish = false

[dependencies]
actix-cors = "=0.7.2"
actix-web = "=4.15.0"
bcrypt = "=0.19.3"
dotenv = "=0.15.0"
futures-util = "=0.3.34"
jsonwebtoken = { version = "=11.1.0", features = ["rust_crypto"] }
mongodb = "=3.9.1"
serde = { version = "=1.0.229", features = ["derive"] }
serde_json = "=1.0.151"
time = "=0.3.55"
uuid = { version = "=1.27.0", features = ["v4"] }
