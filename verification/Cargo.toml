[package]
name = "mailer"
version = "0.1.0"
edition = "2021"
publish = false

[dependencies]
lettre = { version = "=0.11.23", default-features = false, features = ["builder", "smtp-transport", "hostname", "tokio1", "tokio1-native-tls"] }
thiserror = "=2.0.21"

[dev-dependencies]
tokio = { version = "=1.53.2", features = ["rt", "time"] }
