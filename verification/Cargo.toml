[package]
name = "lk"
version = "0.1.0"
edition = "2021"
publish = false

[dependencies]
confy = "0.4"
directories = "*"
hostname = "0.3"
lettre = "0.9"
lettre_email = "0.9"
mmrs = "*"
notify-rust = "*"
serde = { version = "1", features = ["derive"] }
twilio = "*"
