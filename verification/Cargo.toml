[package]
name = "simple_accounts"
version = "0.1.0"
edition = "2021"
publish = false

[dependencies]
rand = "0.9"
uuid = { version = "1", features = ["v4"] }
hashcash = "*"
totp-rs = { version = "5", features = ["otpauth"] }
sequoia-openpgp = { version = "1", default-features = false, features = ["crypto-rust", "allow-experimental-crypto", "allow-variable-time-crypto"] }
serde = { version = "1", features = ["derive"] }
serde_json = "1"
toml = "0.8"
actix-web = "4"
sqlx = { version = "0.8", default-features = false, features = ["postgres", "runtime-tokio"] }
redis = { version = "*", features = ["r2d2"] }
r2d2 = "0.8"
