[package]
name = "otp_auth"
version = "0.1.0"
edition = "2021"
publish = false

[dependencies]
jsonwebtoken = "9"
serde_json = "1"
chrono = { version = "0.4", features = ["serde"] }
rand = "0.8"
humantime = "2"
serde = { version = "1", features = ["derive"] }
actix-web = { version = "4", default-features = false, features = ["macros", "cookies", "openssl"] }
actix-cors = "0.7"
sqlx = { version = "0.8", default-features = false, features = ["mysql", "runtime-tokio", "chrono", "derive"] }
tokio = { version = "1", features = ["rt-multi-thread", "macros", "sync"] }
lettre = { version = "0.11", default-features = false, features = ["builder", "smtp-transport", "native-tls", "hostname"] }
twilio = "*"
uuid = { version = "1", features = ["v4"] }
csv = "1"
futures-util = "0.3"
log = "0.4"
env_logger = "*"
dotenv = "0.15"
lazy_static = "1"
config = { version = "*", default-features = false, features = ["toml"] }
openssl = "0.10"
utoipa = { version = "*", features = ["actix_extras"] }
utoipa-swagger-ui = { version = "*", features = ["actix-web", "vendored"] }
utoipa-redoc = { version = "*", features = ["actix-web"] }
utoipa-rapidoc = { version = "*", features = ["actix-web"] }
fake = "*"
validator = { version = "*", features = ["derive"] }
