[package]
name = "kakaia"
version = "0.1.0"
edition = "2021"
publish = false

[dependencies]
actix-rt = "=1.1.1"
actix-web = "=2.0.0"
audrey = "0.3"
base64 = "=0.11.0"
chrono = "=0.4.19"
deepspeech = "=0.6.1"
hound = "=3.5.1"
rnnoise-c = "=0.1.0"
serde = { version = "=1.0.229", features = ["derive"] }
serde_json = "=1.0.154"
structopt = "=0.3.26"
tempfile = "=3.27.0"
