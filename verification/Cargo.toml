[package]
name = "reminder_mail"
version = "0.1.0"
edition = "2021"
publish = false

[dependencies]
lettre = { version = "*", default-features = false, features = ["builder", "smtp-transport", "pool", "rustls-tls"] }
anyhow = "*"
clap = { version = "*", features = ["derive"] }
dotenv = "*"
