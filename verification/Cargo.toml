[package]
name = "webdev_lib"
version = "0.1.0"
edition = "2021"
publish = false

[dependencies]
rand = "*"
chrono = "*"
rouille = "*"
serde = { version = "*", features = ["derive"] }
serde_json = "*"
url = "*"
log = "*"
simplelog = "*"
dotenv = "*"
google-signin = "*"
