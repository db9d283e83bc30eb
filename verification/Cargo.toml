[package]
name = "pincer"
version = "0.1.0"
edition = "2021"
publish = false

[dependencies]
base64 = "0.22"
brotli = "*"
bytes = "1"
derive_more = { version = "2", features = ["display", "error", "from"] }
flate2 = "1"
futures-core = "0.3"
futures-util = "0.3"
governor = "*"
http = "1"
http-body-util = "0.1"
hyper-rustls = { version = "0.27", default-features = false, features = ["http1", "http2", "ring", "tls12"] }
hyper-util = { version = "0.1", features = ["client-legacy", "http1", "http2", "tokio"] }
metrics = "*"
percent-encoding = "2"
rustls = { version = "0.23", default-features = false, features = ["ring", "std", "tls12"] }
serde = { version = "1", features = ["derive"] }
serde_html_form = "0.2"
serde_json = "1"
serde_path_to_error = "0.1"
serde_urlencoded = "0.7"
tokio = { version = "1", features = ["time", "rt"] }
tower = { version = "0.5", features = ["util", "retry", "limit"] }
tower-service = "0.3"
tracing = "0.1"
url = "2"
webpki-roots = "*"
zstd = "0.13"
