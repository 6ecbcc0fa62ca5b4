[package]
name = "my_atmosphere"
version = "0.1.0"
edition = "2021"
publish = false

[dependencies]
atproto-identity = "=0.14.5"
atproto-oauth = "=0.14.5"
chrono = "=0.4.45"
dioxus = { version = "0.7", default-features = false, features = ["macro", "html", "hooks", "signals", "router", "launch"] }
form_urlencoded = "=1.2.2"
hex = "=0.4.3"
rand = "=0.10.3"
reqwest = { version = "=0.12.28", features = ["json"] }
serde = { version = "=1.0.229", features = ["derive"] }
serde_json = "=1.0.154"
tokio = { version = "=1.54.1", features = ["sync", "macros", "rt-multi-thread"] }
url = "=2.5.8"
web-sys = { version = "=0.3.107", features = ["Window", "Storage", "Location"] }
