[package]
name = "interfacer-http"
version = "0.1.0"
edition = "2021"
publish = false

[dependencies]
encoding = "0.2"
http = "*"
mime = "0.3"
proc-macro2 = "1"
quote = "1"
serde = "1"
serde_json = "1"
serde_urlencoded = "*"
serde-xml-rs = "*"
syn = { version = "2", features = ["full"] }
unhtml = "*"
url = "2"
