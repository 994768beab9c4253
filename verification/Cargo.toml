[package]
name = "application"
version = "0.1.0"
edition = "2021"
publish = false

[dependencies]
url-escape = "=0.1.2"
anyhow = "=1.0.104"
log = "=0.4.34"
embedded-svc = "0.24"
esp-idf-hal = "0.40"
esp-idf-svc = "0.45"
esp-idf-sys = "0.32"
xshell = "=0.2.7"
