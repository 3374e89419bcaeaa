[package]
name = "annex"
version = "0.1.0"
edition = "2021"
publish = false

[dependencies]
actix-cors = "0.7"
actix-files = "0.6"
actix-web = "4"
bson = "2"
chrono = "0.4"
dotenv = "0.15"
futures = "0.3"
jsonwebtoken = "9"
mongodb = "3"
num_cpus = "1"
serde = { version = "1", features = ["derive"] }
