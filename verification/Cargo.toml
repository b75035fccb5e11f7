[package]
name = "m321"
version = "0.1.0"
edition = "2021"
publish = false

[dependencies]
actix-web = { version = "4", default-features = false, features = ["macros", "cookies"] }
actix-session = { version = "0.10", features = ["cookie-session"] }
askama = "0.12"
bson = { version = "2", features = ["chrono-0_4"] }
chrono = "0.4"
futures = "0.3"
jsonwebtoken = "9"
log = "0.4"
mongodb = "3"
oauth2 = "5"
reqwest = { version = "0.12", default-features = false, features = ["json", "rustls-tls"] }
rumqttc = "0.24"
serde = { version = "1", features = ["derive"] }
serde_json = "1"
uuid = { version = "1", features = ["serde", "v4"] }
