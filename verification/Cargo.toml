[package]
name = "fitbyte"
version = "0.1.0"
edition = "2021"
publish = false

[dependencies]
bcrypt = "=0.19.3"
jsonwebtoken = { version = "=11.1.0", features = ["rust_crypto"] }
moka = { version = "=0.12.16", features = ["sync"] }
chrono = "=0.4.45"
infer = "=0.22.0"
uuid = { version = "=1.27.0", features = ["v4", "v7"] }
serde = { version = "=1.0.229", features = ["derive"] }
serde_json = "=1.0.151"
actix-web = "=4.15.0"
actix-web-httpauth = "=0.8.3"
actix-multipart = "=0.8.5"
futures-util = "=0.3.34"
sqlx = { version = "=0.9.0", default-features = false, features = ["runtime-tokio", "postgres", "uuid", "chrono"] }
tokio = { version = "=1.53.2", features = ["sync"] }
aws-sdk-s3 = "=1.152.0"
log = "=0.4.34"
env_logger = "=0.11.11"
dotenv = "=0.15.0"
