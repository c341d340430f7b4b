[package]
name = "forma_fractalis"
version = "0.1.7"
edition = "2021"
publish = false

[dependencies]
serde = { version = "=1.0.229", features = ["derive"] }
serde_json = "=1.0.154"
png = "=0.17.16"
clap = { version = "=4.6.7", features = ["derive"] }
num-complex = "=0.4.6"
scala-chromatica = "=0.1.4"
indicatif = "=0.17.11"
rayon = "=1.12.0"
image = { version = "0.25", default-features = false, features = ["png", "gif"] }
