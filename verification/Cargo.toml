[package]
name = "auth_service"
version = "0.1.0"
edition = "2021"
publish = false

[dependencies]
uuid = { version = "0.8", features = ["v4", "serde"] }
chrono = { version = "0.4", features = ["serde"] }
argonautica = "0.2"
diesel = { version = "1.4", features = ["r2d2", "chrono", "uuidv07"] }
serde = { version = "1", features = ["derive"] }
serde_json = "1"
actix-web = "3"
actix-session = "0.4"
actix-cors = "0.5"
actix-files = "0.4"
lettre = "0.9"
lettre_email = "0.9"
native-tls = "0.2"
env_logger = "0.8"
derive_more = "0.99"
yarte = "*"
cookie = "0.14"
