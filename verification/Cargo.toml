[package]
name = "minchir"
version = "0.1.0"
edition = "2021"
publish = false

[dependencies]
base32 = "=0.5.1"
totp-rs = "=6.0.0"
hmac = "=0.13.0"
sha2 = "=0.11.0"
rand = "=0.10.3"
axum = "=0.8.9"
tokio = { version = "=1.53.2", features = ["macros", "rt-multi-thread", "signal"] }
http = "*"
hyper = "*"
tower = { version = "*", features = ["timeout"] }
tower-cookies = "=0.11.0"
tower-http = { version = "*", features = ["fs", "limit", "trace"] }
serde = { version = "*", features = ["derive"] }
serde_json = "*"
serde_yaml = "=0.9.34"
serde_urlencoded = "=0.7.1"
tera = "=2.4.0"
clap = { version = "=4.6.7", features = ["derive"] }
tracing = "*"
tracing-subscriber = { version = "*", features = ["env-filter"] }
unic-langid = "=0.9.6"
mime = "=0.3.17"
ory-hydra-client = "=26.2.0"
ldap3 = { version = "=0.10.6", default-features = false, features = ["tls-rustls"] }
rustls = "0.20"
rustls-pemfile = "1"
deadpool = "*"
deadpool-ldap = "=0.3.1"
reqwest = "=0.12.28"
